//! The derived minting authority: a keyless, program-scoped signer.
//!
//! The authority's address is computed deterministically from a fixed
//! namespace tag and the program's own identity. No private key for it
//! exists, so only program logic — which alone can present the tag and the
//! bump seed — can authorize a mint under it.

use vstd::prelude::*;

use crate::account_id::AccountId;

verus! {

/// The derived authority's address and bump seed for a given program
/// identity, under the fixed namespace tag — or nothing, in the negligible
/// case that no viable bump seed exists. A deterministic function of the
/// program identity alone; its value belongs to the ledger's address
/// derivation and is not restated here.
pub uninterp spec fn mint_authority_key(program_id: Seq<u8>) -> Option<(Seq<u8>, u8)>;

/// Relies on `Pubkey::try_find_program_address` with the fixed tag
/// `b"mint_authority"`: the derived address (32 bytes) and its bump seed
/// depend only on the tag and the program id; `None` comes back only when no
/// bump seed yields a valid derived address.
#[verifier::external_body]
pub fn derive_mint_authority(program_id: &AccountId) -> (r: Option<(AccountId, u8)>)
    ensures
        (r is Some) == (mint_authority_key(program_id@) is Some),
        r matches Some(p) ==> Some((p.0@, p.1)) == mint_authority_key(program_id@),
        r matches Some(p) ==> p.0@.len() == 32,
{
    let pid = solana_program::pubkey::Pubkey::new_from_array(program_id.bytes);
    match solana_program::pubkey::Pubkey::try_find_program_address(&[b"mint_authority"], &pid) {
        Some((addr, bump)) => Some((AccountId { bytes: addr.to_bytes() }, bump)),
        None => None,
    }
}

} // verus!
