//! Pooled custodial vaults: a registry that issues sequential pool ids,
//! per-pool records with frozen/closed status flags, and a deposit protocol
//! that moves an asset into a pool vault and mints receipt tokens 1:1 under
//! a program-derived minting authority.

use vstd::prelude::*;

mod account_id;
mod authority;
mod errors;
mod events;
mod instructions;
mod laws;
mod pool;
mod registry;
mod token;

pub use account_id::AccountId;
pub use authority::{derive_mint_authority, mint_authority_key};
pub use errors::Error;
pub use events::{PoolCreated, PoolDeposit};
pub use instructions::{
    created_pool, deposit_applied, deposit_outcome, handle_create_pool, handle_deposit,
    mint_check, receipt_balance, transfer_check, validate_spec, CreatePool, Deposit,
};
pub use laws::{
    issued_ids, lemma_deposit_closed_rejected, lemma_deposit_frozen_rejected,
    lemma_deposit_one_to_one, lemma_deposit_wrong_owner_rejected,
    lemma_deposit_wrong_receipt_type_rejected, lemma_pool_ids_exact_set,
    lemma_pool_ids_sequential, registry_after,
};
pub use pool::Pool;
pub use registry::{advanced, fresh_registry, handle_initialize_state, Registry};
pub use token::{read_receipt_holding, spl_account_ok, u64_from_le, Mint, TokenHolding};

verus! {

/// Instruction: creates the registry singleton with its counter at 0.
/// Rejected, with nothing touched, when the registry already exists.
pub fn initialize_state(state: &mut Option<Registry>) -> (r: Result<(), Error>)
    ensures
        (*old(state)) is Some ==> r == Err::<(), Error>(Error::StateAlreadyInitialized)
            && *final(state) == *old(state),
        (*old(state)) is None ==> r == Ok::<(), Error>(()) && *final(state) == Some(
            fresh_registry(),
        ),
{
    handle_initialize_state(state)
}

/// Instruction: creates a new pool accepting the asset `token`, with the
/// next identity from the registry and both status flags off, and reports
/// the creation event.
pub fn create_pool(ctx: &mut CreatePool, token: AccountId) -> (r: Result<PoolCreated, Error>)
    requires
        old(ctx).state.next_pool_id < u64::MAX,
    ensures
        final(ctx).pool == created_pool(*old(ctx), token),
        final(ctx).state == advanced(old(ctx).state),
        final(ctx).authority == old(ctx).authority,
        r == Ok::<PoolCreated, Error>(
            (PoolCreated {
                id: old(ctx).state.next_pool_id,
                creator: old(ctx).authority,
                asset: token,
            }),
        ),
{
    handle_create_pool(ctx, token)
}

/// Instruction: deposits `amount` of the pool's asset into its vault and
/// mints the same amount of receipt tokens to the depositor, atomically;
/// any failure leaves every account unchanged.
pub fn deposit(ctx: &mut Deposit, amount: u64) -> (r: Result<PoolDeposit, Error>)
    ensures
        (match deposit_outcome(*old(ctx), amount) {
            Ok(res) => *final(ctx) == res.0 && r == Ok::<PoolDeposit, Error>(res.1),
            Err(e) => *final(ctx) == *old(ctx) && r == Err::<PoolDeposit, Error>(e),
        }),
{
    handle_deposit(ctx, amount)
}

} // verus!
