//! Rejection errors of the pool program. Every error aborts the whole
//! invocation: no operation is ever partially applied.

use vstd::prelude::*;

verus! {

/// Why an invocation was rejected. The first five variants are raised by the
/// program's own validation; the last four model the failure modes of the
/// external token capabilities (a malformed holding record, a mint whose
/// authority is not the program-derived one, and the transfer and mint
/// arithmetic failures).
#[derive(Clone, Copy, Debug, PartialEq, Eq)]
pub enum Error {
    /// The signer is not the owner of the source token holding.
    InvalidTokenAccountOwnerError,
    /// The depositor's existing receipt holding is for the wrong token type.
    InvalidAssociatedTokenAccount,
    /// The registry singleton was already initialized.
    StateAlreadyInitialized,
    /// The pool is closed: deposits are permanently rejected.
    PoolClosedError,
    /// The pool is frozen: deposits are temporarily rejected.
    PoolFrozenError,
    /// The receipt holding's account data is not a valid token-account record.
    InvalidAccountData,
    /// The receipt mint's authority is not the program-derived authority,
    /// so the program cannot authorize the mint step.
    InvalidMintAuthority,
    /// The source holding has fewer tokens than the requested amount.
    InsufficientFunds,
    /// A balance or the mint supply would exceed the 64-bit range.
    Overflow,
}

} // verus!
