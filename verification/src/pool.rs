//! The per-pool account record.

use vstd::prelude::*;

use crate::account_id::AccountId;

verus! {

/// One pool's persisted record: its identity, its creator, the asset it
/// accepts, and its two status flags. `id`, `creator` and `asset` are set at
/// creation and never change; only out-of-scope freeze/close operations touch
/// the flags.
#[derive(Clone, Copy, Debug, PartialEq, Eq)]
pub struct Pool {
    /// Identity issued by the registry at creation, unique across all pools.
    pub id: u64,
    /// Identity of the account that created the pool.
    pub creator: AccountId,
    /// The underlying asset type this pool accepts.
    pub asset: AccountId,
    /// When true, deposits are permanently rejected.
    pub is_closed: bool,
    /// When true, deposits are rejected until the pool is thawed.
    pub is_frozen: bool,
}

} // verus!
