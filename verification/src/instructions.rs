//! Pool creation and the deposit protocol.
//!
//! Each handler executes as one atomic unit: on any failure every account
//! value is left exactly as it was, and the event is produced only after
//! every step has succeeded. The external substrate serializes conflicting
//! invocations; within one invocation the steps run strictly in order.

use vstd::prelude::*;

use crate::account_id::AccountId;
use crate::authority::{derive_mint_authority, mint_authority_key};
use crate::errors::Error;
use crate::events::{PoolCreated, PoolDeposit};
use crate::pool::Pool;
use crate::registry::{advanced, Registry};
use crate::token::{Mint, TokenHolding};

verus! {

/// The accounts of one pool-creation invocation.
#[derive(Clone, Copy, Debug, PartialEq, Eq)]
pub struct CreatePool {
    /// The signer creating the pool; recorded as its creator.
    pub authority: AccountId,
    /// The freshly allocated pool record the handler fills in.
    pub pool: Pool,
    /// The registry issuing the new pool's identity.
    pub state: Registry,
}

/// The pool record that a creation invocation writes: the next identity from
/// the registry, the given creator and asset, and both flags off.
pub open spec fn created_pool(ctx: CreatePool, token: AccountId) -> Pool {
    Pool {
        id: ctx.state.next_pool_id,
        creator: ctx.authority,
        asset: token,
        is_closed: false,
        is_frozen: false,
    }
}

/// Creates a pool: allocates the next identity from the registry, fills the
/// pool record with that identity, the creator and the accepted asset, both
/// status flags off, and reports the creation event.
pub fn handle_create_pool(ctx: &mut CreatePool, token: AccountId) -> (r: Result<
    PoolCreated,
    Error,
>)
    requires
        old(ctx).state.next_pool_id < u64::MAX,
    ensures
        final(ctx).pool == created_pool(*old(ctx), token),
        final(ctx).state == advanced(old(ctx).state),
        final(ctx).authority == old(ctx).authority,
        r == Ok::<PoolCreated, Error>(
            (PoolCreated {
                id: old(ctx).state.next_pool_id,
                creator: old(ctx).authority,
                asset: token,
            }),
        ),
{
    let id = ctx.state.allocate_pool_id();
    ctx.pool.id = id;
    ctx.pool.creator = ctx.authority;
    ctx.pool.asset = token;
    ctx.pool.is_frozen = false;
    ctx.pool.is_closed = false;
    Ok(
        PoolCreated {
            id: ctx.pool.id,
            creator: ctx.pool.creator,
            asset: ctx.pool.asset,
        },
    )
}

/// The accounts of one deposit invocation.
#[derive(Clone, Copy, Debug, PartialEq, Eq)]
pub struct Deposit {
    /// The identity of this program, from which the minting authority is
    /// derived.
    pub program_id: AccountId,
    /// The depositor; must own the source holding and sign the transfer.
    pub signer: AccountId,
    /// The pool deposited into.
    pub pool: Pool,
    /// The pool's vault holding, which accumulates deposited assets.
    pub pool_token_account: TokenHolding,
    /// The depositor's holding supplying the funds.
    pub user_token_account: TokenHolding,
    /// The depositor's receipt-token holding; `None` when it does not exist
    /// yet, in which case the deposit provisions it. Built from persisted
    /// account data by `read_receipt_holding`.
    pub user_pool_token_account: Option<TokenHolding>,
    /// The pool's receipt-token mint.
    pub mint: Mint,
}

/// The balance of the depositor's receipt holding, counting a holding that
/// does not exist yet as empty.
pub open spec fn receipt_balance(d: Deposit) -> u64 {
    match d.user_pool_token_account {
        Some(h) => h.amount,
        None => 0,
    }
}

/// The validation sequence, in its canonical order: ownership of the source
/// holding, the frozen flag, the closed flag, then the receipt holding's
/// token type.
pub open spec fn validate_spec(d: Deposit) -> Result<(), Error> {
    if d.user_token_account.owner@ != d.signer@ {
        Err(Error::InvalidTokenAccountOwnerError)
    } else if d.pool.is_frozen {
        Err(Error::PoolFrozenError)
    } else if d.pool.is_closed {
        Err(Error::PoolClosedError)
    } else if d.user_pool_token_account matches Some(h) && h.mint@ != d.mint.key@ {
        Err(Error::InvalidAssociatedTokenAccount)
    } else {
        Ok(())
    }
}

/// Whether the transfer step can move `amount` from the source holding to
/// the vault: the source must hold enough, and the vault balance must stay
/// in the 64-bit range.
pub open spec fn transfer_check(d: Deposit, amount: u64) -> Result<(), Error> {
    if d.user_token_account.amount < amount {
        Err(Error::InsufficientFunds)
    } else if d.pool_token_account.amount + amount > u64::MAX {
        Err(Error::Overflow)
    } else {
        Ok(())
    }
}

/// Whether the mint step can mint `amount` receipt tokens: the mint's
/// authority must be the program-derived authority, and neither the supply
/// nor the receipt balance may leave the 64-bit range.
pub open spec fn mint_check(d: Deposit, amount: u64) -> Result<(), Error> {
    if !(mint_authority_key(d.program_id@) matches Some(k) && d.mint.mint_authority@ == k.0) {
        Err(Error::InvalidMintAuthority)
    } else if d.mint.supply + amount > u64::MAX {
        Err(Error::Overflow)
    } else if receipt_balance(d) + amount > u64::MAX {
        Err(Error::Overflow)
    } else {
        Ok(())
    }
}

/// The accounts after a successful deposit of `amount`: the source holding
/// debited, the vault credited, the receipt holding (provisioned for the
/// depositor if absent) credited, and the supply grown — each by exactly
/// `amount`.
pub open spec fn deposit_applied(d: Deposit, amount: u64) -> Deposit {
    let receipt = (match d.user_pool_token_account {
        Some(h) => TokenHolding { amount: (h.amount + amount) as u64, ..h },
        None => TokenHolding { mint: d.mint.key, owner: d.signer, amount },
    });
    Deposit {
        user_token_account: TokenHolding {
            amount: (d.user_token_account.amount - amount) as u64,
            ..d.user_token_account
        },
        pool_token_account: TokenHolding {
            amount: (d.pool_token_account.amount + amount) as u64,
            ..d.pool_token_account
        },
        user_pool_token_account: Some(receipt),
        mint: Mint { supply: (d.mint.supply + amount) as u64, ..d.mint },
        ..d
    }
}

/// The whole deposit invocation as one function of the starting accounts:
/// either the final accounts with the deposit event, or the first error in
/// the canonical order (validation, then transfer, then mint).
pub open spec fn deposit_outcome(d: Deposit, amount: u64) -> Result<(Deposit, PoolDeposit), Error> {
    match validate_spec(d) {
        Err(e) => Err(e),
        Ok(_) => match transfer_check(d, amount) {
            Err(e) => Err(e),
            Ok(_) => match mint_check(d, amount) {
                Err(e) => Err(e),
                Ok(_) => Ok(
                    (
                        deposit_applied(d, amount),
                        PoolDeposit { amount, depositor: d.signer, pool_id: d.pool.id },
                    ),
                ),
            },
        },
    }
}

impl Deposit {
    /// Step 1 of the protocol: validates the request against the pool record
    /// and the holdings, mutating nothing.
    fn validate_deposit(&self) -> (r: Result<(), Error>)
        ensures
            r == validate_spec(*self),
    {
        if !self.user_token_account.owner.same_as(&self.signer) {
            return Err(Error::InvalidTokenAccountOwnerError);
        }
        if self.pool.is_frozen {
            return Err(Error::PoolFrozenError);
        }
        if self.pool.is_closed {
            return Err(Error::PoolClosedError);
        }
        match &self.user_pool_token_account {
            Some(h) => {
                if !h.mint.same_as(&self.mint.key) {
                    return Err(Error::InvalidAssociatedTokenAccount);
                }
            },
            None => {},
        }
        Ok(())
    }

    /// Whether the mint step would succeed, computed without mutating
    /// anything, so that the invocation can abort before the transfer and
    /// stay all-or-nothing without a rollback.
    fn check_mint(&self, amount: u64) -> (r: Result<(), Error>)
        ensures
            r == mint_check(*self, amount),
    {
        match derive_mint_authority(&self.program_id) {
            None => {
                return Err(Error::InvalidMintAuthority);
            },
            Some((authority, _bump)) => {
                if !self.mint.mint_authority.same_as(&authority) {
                    return Err(Error::InvalidMintAuthority);
                }
            },
        }
        if self.mint.supply > u64::MAX - amount {
            return Err(Error::Overflow);
        }
        let existing: u64 = match &self.user_pool_token_account {
            Some(h) => h.amount,
            None => 0,
        };
        if existing > u64::MAX - amount {
            return Err(Error::Overflow);
        }
        Ok(())
    }

    /// The lazy provisioning of the receipt holding: when the depositor has
    /// none yet, one is created for the depositor with the pool's receipt
    /// token type and an empty balance; an existing holding is untouched.
    fn get_or_create_receipt(&mut self)
        ensures
            old(self).user_pool_token_account is Some ==> *final(self) == *old(self),
            old(self).user_pool_token_account is None ==> *final(self) == (Deposit {
                user_pool_token_account: Some(
                    (TokenHolding {
                        mint: old(self).mint.key,
                        owner: old(self).signer,
                        amount: 0,
                    }),
                ),
                ..*old(self)
            }),
    {
        match &self.user_pool_token_account {
            Some(_) => {},
            None => {
                self.user_pool_token_account = Some(
                    TokenHolding { mint: self.mint.key, owner: self.signer, amount: 0 },
                );
            },
        }
    }

    /// Step 2 of the protocol: moves `amount` of the pool's asset from the
    /// depositor's holding into the vault, authorized by the depositor.
    /// Fails atomically when the source is short or the vault would
    /// overflow.
    fn deposit_to_pool(&mut self, amount: u64) -> (r: Result<(), Error>)
        ensures
            r == transfer_check(*old(self), amount),
            r is Err ==> *final(self) == *old(self),
            r is Ok ==> *final(self) == (Deposit {
                user_token_account: (TokenHolding {
                    amount: (old(self).user_token_account.amount - amount) as u64,
                    ..old(self).user_token_account
                }),
                pool_token_account: (TokenHolding {
                    amount: (old(self).pool_token_account.amount + amount) as u64,
                    ..old(self).pool_token_account
                }),
                ..*old(self)
            }),
    {
        if self.user_token_account.amount < amount {
            return Err(Error::InsufficientFunds);
        }
        if self.pool_token_account.amount > u64::MAX - amount {
            return Err(Error::Overflow);
        }
        self.user_token_account.amount = self.user_token_account.amount - amount;
        self.pool_token_account.amount = self.pool_token_account.amount + amount;
        Ok(())
    }

    /// Step 3 of the protocol: mints `amount` receipt tokens to the
    /// depositor's receipt holding, 1:1 with the deposited amount, under the
    /// program-derived minting authority. Fails atomically when the mint's
    /// authority is not the derived one or a counter would overflow.
    fn mint_lp_tokens_to_user(&mut self, amount: u64) -> (r: Result<(), Error>)
        requires
            old(self).user_pool_token_account is Some,
        ensures
            r == mint_check(*old(self), amount),
            r is Err ==> *final(self) == *old(self),
            r is Ok ==> *final(self) == (Deposit {
                user_pool_token_account: Some(
                    (TokenHolding {
                        amount: (receipt_balance(*old(self)) + amount) as u64,
                        ..old(self).user_pool_token_account->Some_0
                    }),
                ),
                mint: (Mint { supply: (old(self).mint.supply + amount) as u64, ..old(self).mint }),
                ..*old(self)
            }),
    {
        match derive_mint_authority(&self.program_id) {
            None => {
                return Err(Error::InvalidMintAuthority);
            },
            Some((authority, _bump)) => {
                if !self.mint.mint_authority.same_as(&authority) {
                    return Err(Error::InvalidMintAuthority);
                }
            },
        }
        if self.mint.supply > u64::MAX - amount {
            return Err(Error::Overflow);
        }
        match &mut self.user_pool_token_account {
            Some(h) => {
                if h.amount > u64::MAX - amount {
                    return Err(Error::Overflow);
                }
                h.amount = h.amount + amount;
            },
            None => {
                // Never reached: the receipt holding is provisioned before
                // this step runs.
                return Err(Error::InvalidMintAuthority);
            },
        }
        self.mint.supply = self.mint.supply + amount;
        Ok(())
    }
}

/// Runs one deposit invocation: validation, lazy provisioning of the receipt
/// holding, the asset transfer into the vault, the 1:1 receipt mint, and the
/// deposit event — as one atomic unit. Any failure leaves every account
/// exactly as it was and reports the first error in the canonical order.
pub fn handle_deposit(ctx: &mut Deposit, amount: u64) -> (r: Result<PoolDeposit, Error>)
    ensures
        (match deposit_outcome(*old(ctx), amount) {
            Ok(res) => *final(ctx) == res.0 && r == Ok::<PoolDeposit, Error>(res.1),
            Err(e) => *final(ctx) == *old(ctx) && r == Err::<PoolDeposit, Error>(e),
        }),
{
    match ctx.validate_deposit() {
        Err(e) => {
            return Err(e);
        },
        Ok(_) => {},
    }
    // The transfer and mint conditions are both checked before anything is
    // mutated: the substrate commits the steps all-or-nothing, and the model
    // keeps that guarantee by never mutating before every step is known to
    // go through. The transfer conditions come first so that the first
    // failing step in the canonical order names the error.
    if ctx.user_token_account.amount < amount {
        return Err(Error::InsufficientFunds);
    }
    if ctx.pool_token_account.amount > u64::MAX - amount {
        return Err(Error::Overflow);
    }
    match ctx.check_mint(amount) {
        Err(e) => {
            return Err(e);
        },
        Ok(_) => {},
    }
    ctx.get_or_create_receipt();
    match ctx.deposit_to_pool(amount) {
        Err(e) => {
            return Err(e);
        },
        Ok(_) => {},
    }
    match ctx.mint_lp_tokens_to_user(amount) {
        Err(e) => {
            return Err(e);
        },
        Ok(_) => {},
    }
    Ok(PoolDeposit { amount, depositor: ctx.signer, pool_id: ctx.pool.id })
}

} // verus!
