//! The library's laws: properties of the registry's identity issuance and of
//! the deposit protocol, proved once and for all inputs.
//!
//! The no-mutation-on-failure half of the deposit laws is carried by the
//! contract of `deposit` itself: on every `Err` outcome the accounts are
//! exactly the starting accounts. The laws here pin down which outcome each
//! class of input produces.

use vstd::prelude::*;

use crate::errors::Error;
use crate::events::PoolDeposit;
use crate::instructions::{deposit_outcome, receipt_balance, Deposit};
use crate::registry::{advanced, fresh_registry, Registry};

verus! {

/// The registry after `n` pool creations starting from the freshly
/// initialized one.
pub open spec fn registry_after(n: nat) -> Registry
    decreases n,
{
    if n == 0 {
        fresh_registry()
    } else {
        advanced(registry_after((n - 1) as nat))
    }
}

/// The pool identities issued by `n` pool creations starting from the
/// freshly initialized registry, in order of creation.
pub open spec fn issued_ids(n: nat) -> Seq<u64>
    decreases n,
{
    if n == 0 {
        Seq::empty()
    } else {
        issued_ids((n - 1) as nat).push(registry_after((n - 1) as nat).next_pool_id)
    }
}

/// Law: over any sequence of pool creations from a fresh registry, the
/// issued identities are exactly 0, 1, ..., n-1 — no gaps, no repeats — and
/// the registry counter after n creations equals n.
pub proof fn lemma_pool_ids_sequential(n: nat)
    requires
        n <= u64::MAX,
    ensures
        registry_after(n).next_pool_id == n,
        issued_ids(n).len() == n,
        forall|i: int| 0 <= i < n ==> issued_ids(n)[i] == i as u64,
        forall|i: int, j: int|
            0 <= i < n && 0 <= j < n && i != j ==> issued_ids(n)[i] != issued_ids(n)[j],
    decreases n,
{
    if n > 0 {
        lemma_pool_ids_sequential((n - 1) as nat);
    }
}

/// Law: the set of identities issued by n pool creations from a fresh
/// registry is exactly the set of values below n.
pub proof fn lemma_pool_ids_exact_set(n: nat)
    requires
        n <= u64::MAX,
    ensures
        issued_ids(n).to_set() == Set::new(|x: u64| (x as nat) < n),
{
    lemma_pool_ids_sequential(n);
    let ids = issued_ids(n);
    assert(ids.to_set() =~= Set::new(|x: u64| (x as nat) < n)) by {
        assert forall|x: u64| (x as nat) < n implies ids.contains(x) by {
            assert(ids[x as int] == x);
        }
        assert forall|x: u64| ids.contains(x) implies (x as nat) < n by {
            let i = choose|i: int| 0 <= i < ids.len() && ids[i] == x;
            assert(ids[i] == i as u64);
        }
    }
}

/// Law: a deposit against a frozen pool never succeeds and (by the contract
/// of `deposit`) never mutates any account; whenever the depositor does own
/// the source holding, the reported error is the frozen error.
pub proof fn lemma_deposit_frozen_rejected(d: Deposit, amount: u64)
    requires
        d.pool.is_frozen,
    ensures
        deposit_outcome(d, amount) is Err,
        d.user_token_account.owner@ == d.signer@ ==> deposit_outcome(d, amount) == Err::<
            (Deposit, PoolDeposit),
            Error,
        >(Error::PoolFrozenError),
{
}

/// Law: a deposit against a closed pool never succeeds and (by the contract
/// of `deposit`) never mutates any account; whenever the depositor owns the
/// source holding and the pool is not also frozen — the frozen check comes
/// first in the canonical order — the reported error is the closed error.
pub proof fn lemma_deposit_closed_rejected(d: Deposit, amount: u64)
    requires
        d.pool.is_closed,
    ensures
        deposit_outcome(d, amount) is Err,
        d.user_token_account.owner@ == d.signer@ && !d.pool.is_frozen ==> deposit_outcome(
            d,
            amount,
        ) == Err::<(Deposit, PoolDeposit), Error>(Error::PoolClosedError),
{
}

/// Law: every successful deposit of amount A credits the vault by exactly A,
/// credits the depositor's receipt holding by exactly A, grows the receipt
/// supply by exactly A and debits the source holding by exactly A — in one
/// indivisible state change, with the deposit event carrying the amount, the
/// depositor and the pool identity.
pub proof fn lemma_deposit_one_to_one(d: Deposit, amount: u64)
    requires
        deposit_outcome(d, amount) is Ok,
    ensures
        (match deposit_outcome(d, amount) {
            Ok(res) => {
                &&& res.0.pool_token_account.amount == d.pool_token_account.amount + amount
                &&& receipt_balance(res.0) == receipt_balance(d) + amount
                &&& res.0.user_token_account.amount == d.user_token_account.amount - amount
                &&& res.0.mint.supply == d.mint.supply + amount
                &&& res.1 == (PoolDeposit { amount, depositor: d.signer, pool_id: d.pool.id })
            },
            Err(_) => false,
        }),
{
}

/// Law: a deposit whose source holding is not owned by the depositor always
/// fails with the ownership error — the first check of the canonical order,
/// so no transfer or mint is ever attempted — and (by the contract of
/// `deposit`) never mutates any account.
pub proof fn lemma_deposit_wrong_owner_rejected(d: Deposit, amount: u64)
    requires
        d.user_token_account.owner@ != d.signer@,
    ensures
        deposit_outcome(d, amount) == Err::<(Deposit, PoolDeposit), Error>(
            Error::InvalidTokenAccountOwnerError,
        ),
{
}

/// Law: a deposit whose existing receipt holding is for the wrong token type
/// never succeeds, so no transfer or mint is ever attempted and (by the
/// contract of `deposit`) no account is mutated; whenever the earlier checks
/// of the canonical order pass, the reported error is the mismatch error.
pub proof fn lemma_deposit_wrong_receipt_type_rejected(d: Deposit, amount: u64)
    requires
        d.user_pool_token_account matches Some(h) && h.mint@ != d.mint.key@,
    ensures
        deposit_outcome(d, amount) is Err,
        d.user_token_account.owner@ == d.signer@ && !d.pool.is_frozen && !d.pool.is_closed
            ==> deposit_outcome(d, amount) == Err::<(Deposit, PoolDeposit), Error>(
            Error::InvalidAssociatedTokenAccount,
        ),
{
}

} // verus!
