use staking_pool_manager::{
    deposit, derive_mint_authority, AccountId, Deposit, Error, Mint, Pool, PoolDeposit,
    TokenHolding,
};

fn id(tag: u8) -> AccountId {
    AccountId::new([tag; 32])
}

/// A deposit context for pool 0: depositor D owns 500 units of the asset,
/// the vault is empty, no receipt holding exists yet, and the receipt mint's
/// authority is the program-derived one.
fn fresh_deposit() -> Deposit {
    let program_id = id(1);
    let depositor = id(2);
    let asset = id(3);
    let receipt_mint = id(4);
    let (authority, _bump) = derive_mint_authority(&program_id).unwrap();
    Deposit {
        program_id,
        signer: depositor,
        pool: Pool {
            id: 0,
            creator: id(9),
            asset,
            is_closed: false,
            is_frozen: false,
        },
        pool_token_account: TokenHolding {
            mint: asset,
            owner: id(10),
            amount: 0,
        },
        user_token_account: TokenHolding {
            mint: asset,
            owner: depositor,
            amount: 500,
        },
        user_pool_token_account: None,
        mint: Mint {
            key: receipt_mint,
            mint_authority: authority,
            supply: 7,
        },
    }
}

fn assert_unchanged(before: &Deposit, after: &Deposit) {
    assert_eq!(before, after);
}

#[test]
fn deposit_moves_funds_and_mints_one_to_one() {
    // deposit(pool 0, amount = 100) on a fresh pool: the vault grows by 100,
    // the depositor's receipt holding is created and receives 100, and the
    // event carries {100, depositor, 0}.
    let mut d = fresh_deposit();
    let depositor = d.signer;
    let event = deposit(&mut d, 100).unwrap();
    assert_eq!(d.pool_token_account.amount, 100);
    assert_eq!(d.user_token_account.amount, 400);
    let receipt = d.user_pool_token_account.unwrap();
    assert_eq!(receipt.amount, 100);
    assert_eq!(receipt.owner, depositor);
    assert_eq!(receipt.mint, d.mint.key);
    assert_eq!(d.mint.supply, 107);
    assert_eq!(
        event,
        PoolDeposit {
            amount: 100,
            depositor,
            pool_id: 0
        }
    );
}

#[test]
fn deposit_credits_an_existing_receipt_holding() {
    let mut d = fresh_deposit();
    d.user_pool_token_account = Some(TokenHolding {
        mint: d.mint.key,
        owner: d.signer,
        amount: 40,
    });
    deposit(&mut d, 100).unwrap();
    assert_eq!(d.user_pool_token_account.unwrap().amount, 140);
    assert_eq!(d.pool_token_account.amount, 100);
    assert_eq!(d.mint.supply, 107);
}

#[test]
fn deposit_on_frozen_pool_fails_without_mutation() {
    let mut d = fresh_deposit();
    d.pool.is_frozen = true;
    let before = d;
    let r = deposit(&mut d, 100);
    assert_eq!(r, Err(Error::PoolFrozenError));
    assert_unchanged(&before, &d);
}

#[test]
fn deposit_on_closed_pool_fails_without_mutation() {
    let mut d = fresh_deposit();
    d.pool.is_closed = true;
    let before = d;
    let r = deposit(&mut d, 100);
    assert_eq!(r, Err(Error::PoolClosedError));
    assert_unchanged(&before, &d);
}

#[test]
fn deposit_by_non_owner_fails_without_mutation() {
    let mut d = fresh_deposit();
    d.user_token_account.owner = id(77);
    let before = d;
    let r = deposit(&mut d, 100);
    assert_eq!(r, Err(Error::InvalidTokenAccountOwnerError));
    assert_unchanged(&before, &d);
}

#[test]
fn ownership_check_comes_before_the_frozen_check() {
    let mut d = fresh_deposit();
    d.user_token_account.owner = id(77);
    d.pool.is_frozen = true;
    let r = deposit(&mut d, 100);
    assert_eq!(r, Err(Error::InvalidTokenAccountOwnerError));
}

#[test]
fn deposit_with_wrong_receipt_mint_fails_without_mutation() {
    let mut d = fresh_deposit();
    d.user_pool_token_account = Some(TokenHolding {
        mint: id(88),
        owner: d.signer,
        amount: 40,
    });
    let before = d;
    let r = deposit(&mut d, 100);
    assert_eq!(r, Err(Error::InvalidAssociatedTokenAccount));
    assert_unchanged(&before, &d);
}

#[test]
fn deposit_with_insufficient_funds_fails_without_mutation() {
    let mut d = fresh_deposit();
    d.user_token_account.amount = 99;
    let before = d;
    let r = deposit(&mut d, 100);
    assert_eq!(r, Err(Error::InsufficientFunds));
    assert_unchanged(&before, &d);
}

#[test]
fn deposit_overflowing_the_vault_fails_without_mutation() {
    let mut d = fresh_deposit();
    d.pool_token_account.amount = u64::MAX - 99;
    let before = d;
    let r = deposit(&mut d, 100);
    assert_eq!(r, Err(Error::Overflow));
    assert_unchanged(&before, &d);
}

#[test]
fn deposit_overflowing_the_supply_fails_without_mutation() {
    let mut d = fresh_deposit();
    d.mint.supply = u64::MAX - 99;
    let before = d;
    let r = deposit(&mut d, 100);
    assert_eq!(r, Err(Error::Overflow));
    assert_unchanged(&before, &d);
}

#[test]
fn deposit_overflowing_the_receipt_holding_fails_without_mutation() {
    let mut d = fresh_deposit();
    d.user_pool_token_account = Some(TokenHolding {
        mint: d.mint.key,
        owner: d.signer,
        amount: u64::MAX - 99,
    });
    let before = d;
    let r = deposit(&mut d, 100);
    assert_eq!(r, Err(Error::Overflow));
    assert_unchanged(&before, &d);
}

#[test]
fn deposit_under_a_foreign_mint_authority_fails_without_mutation() {
    // The program cannot authorize minting under a mint whose authority is
    // not the derived one.
    let mut d = fresh_deposit();
    d.mint.mint_authority = id(66);
    let before = d;
    let r = deposit(&mut d, 100);
    assert_eq!(r, Err(Error::InvalidMintAuthority));
    assert_unchanged(&before, &d);
}

#[test]
fn zero_amount_deposit_succeeds_and_moves_nothing() {
    // No minimum amount is enforced: a zero deposit is a boundary case that
    // validates, transfers nothing and mints nothing.
    let mut d = fresh_deposit();
    let event = deposit(&mut d, 0).unwrap();
    assert_eq!(d.pool_token_account.amount, 0);
    assert_eq!(d.user_token_account.amount, 500);
    assert_eq!(d.user_pool_token_account.unwrap().amount, 0);
    assert_eq!(event.amount, 0);
}
