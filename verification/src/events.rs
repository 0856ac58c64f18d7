//! Event records: append-only, fire-and-forget snapshots of a state
//! transition, handed back to the caller for emission. They are never
//! authoritative state and are never required for correctness of later reads.

use vstd::prelude::*;

use crate::account_id::AccountId;

verus! {

/// Emitted once per successful pool creation.
#[derive(Clone, Copy, Debug, PartialEq, Eq)]
pub struct PoolCreated {
    /// The identity the registry issued to the new pool.
    pub id: u64,
    /// The pool's creator.
    pub creator: AccountId,
    /// The asset the pool accepts.
    pub asset: AccountId,
}

/// Emitted once per successful deposit.
#[derive(Clone, Copy, Debug, PartialEq, Eq)]
pub struct PoolDeposit {
    /// The deposited amount (and, 1:1, the minted receipt amount).
    pub amount: u64,
    /// The depositor.
    pub depositor: AccountId,
    /// The pool deposited into.
    pub pool_id: u64,
}

} // verus!
