//! The registry singleton: the global counter that issues pool identities.

use vstd::prelude::*;

use crate::errors::Error;

verus! {

/// The singleton counter of pools created. Created once, incremented by
/// exactly one on every pool creation, never destroyed.
#[derive(Clone, Copy, Debug, PartialEq, Eq)]
pub struct Registry {
    /// The identity the next created pool will receive. Starts at 0.
    pub next_pool_id: u64,
}

/// The registry as the initialization step creates it.
pub open spec fn fresh_registry() -> Registry {
    Registry { next_pool_id: 0 }
}

/// The registry after one pool creation.
pub open spec fn advanced(r: Registry) -> Registry {
    Registry { next_pool_id: (r.next_pool_id + 1) as u64 }
}

impl Registry {
    /// Issues the next pool identity and advances the counter. An internal
    /// step of pool creation, never invoked on its own: the surrounding
    /// transaction applies it together with the new pool record.
    pub(crate) fn allocate_pool_id(&mut self) -> (id: u64)
        requires
            old(self).next_pool_id < u64::MAX,
        ensures
            id == old(self).next_pool_id,
            *final(self) == advanced(*old(self)),
    {
        let id = self.next_pool_id;
        self.next_pool_id = self.next_pool_id + 1;
        id
    }
}

/// Creates the registry singleton with its counter at 0. Rejected when the
/// registry already exists; nothing is touched in that case.
pub fn handle_initialize_state(state: &mut Option<Registry>) -> (r: Result<(), Error>)
    ensures
        (*old(state)) is Some ==> r == Err::<(), Error>(Error::StateAlreadyInitialized)
            && *final(state) == *old(state),
        (*old(state)) is None ==> r == Ok::<(), Error>(())
            && *final(state) == Some(fresh_registry()),
{
    match state {
        Some(_) => Err(Error::StateAlreadyInitialized),
        None => {
            *state = Some(Registry { next_pool_id: 0 });
            Ok(())
        }
    }
}

} // verus!
