//! Token holdings and the receipt mint, and the decoding of a holding's
//! persisted account record.
//!
//! A holding (a token account) is modeled by the three fields the protocol
//! reads and writes: its token type, its owner and its balance. The persisted
//! form of a holding is the 165-byte record of the token program; decoding it
//! is the token program's own job and stands behind a trusted wrapper.

use vstd::prelude::*;

use solana_program::program_pack::Pack;

use crate::account_id::AccountId;
use crate::errors::Error;

verus! {

/// A token holding: one account of the external token program, reduced to
/// the fields the deposit protocol touches.
#[derive(Clone, Copy, Debug, PartialEq, Eq)]
pub struct TokenHolding {
    /// The token type this holding holds.
    pub mint: AccountId,
    /// The identity that owns (and must authorize debits of) this holding.
    pub owner: AccountId,
    /// The balance, in base units.
    pub amount: u64,
}

/// The receipt-token mint of a pool: the token type minted 1:1 against
/// deposits, reduced to the fields the protocol touches.
#[derive(Clone, Copy, Debug, PartialEq, Eq)]
pub struct Mint {
    /// The mint's own identity (the receipt-token type).
    pub key: AccountId,
    /// The authority that must sign mint operations. Minting succeeds only
    /// when this is the program-derived authority.
    pub mint_authority: AccountId,
    /// Total supply of receipt tokens minted so far.
    pub supply: u64,
}

/// Whether a byte string is a well-formed, initialized token-account record
/// as the token program defines one. The full condition (field tags, the
/// state byte, initialization) belongs to the token program; nothing here
/// restates it.
pub uninterp spec fn spl_account_ok(data: Seq<u8>) -> bool;

/// The unsigned 64-bit value that 8 bytes encode in little-endian order.
pub open spec fn u64_from_le(b: Seq<u8>) -> u64
    recommends
        b.len() == 8,
{
    ((b[0] as int)
        + (b[1] as int) * 0x100
        + (b[2] as int) * 0x1_0000
        + (b[3] as int) * 0x100_0000
        + (b[4] as int) * 0x1_0000_0000
        + (b[5] as int) * 0x100_0000_0000
        + (b[6] as int) * 0x1_0000_0000_0000
        + (b[7] as int) * 0x100_0000_0000_0000) as u64
}

/// Relies on `spl_token::state::Account::unpack`: it accepts exactly the
/// well-formed, initialized 165-byte token-account records, and on success
/// the record's mint is bytes 0..32, its owner is bytes 32..64 and its
/// balance is the little-endian u64 in bytes 64..72.
#[verifier::external_body]
fn unpack_token_account(data: &Vec<u8>) -> (r: Option<TokenHolding>)
    ensures
        (r is Some) == spl_account_ok(data@),
        r matches Some(h) ==> data@.len() == 165,
        r matches Some(h) ==> h.mint@ == data@.subrange(0, 32),
        r matches Some(h) ==> h.owner@ == data@.subrange(32, 64),
        r matches Some(h) ==> h.amount == u64_from_le(data@.subrange(64, 72)),
{
    match spl_token::state::Account::unpack(data.as_slice()) {
        Ok(a) => Some(TokenHolding {
            mint: AccountId { bytes: a.mint.to_bytes() },
            owner: AccountId { bytes: a.owner.to_bytes() },
            amount: a.amount,
        }),
        Err(_) => None,
    }
}

/// Reads the depositor's receipt holding from its persisted account data.
/// Empty data means the holding does not exist yet (it will be provisioned
/// lazily during the deposit); otherwise the data must decode as a token
/// holding, or the invocation is rejected.
pub fn read_receipt_holding(data: &Vec<u8>) -> (r: Result<Option<TokenHolding>, Error>)
    ensures
        (match r {
            Ok(None) => data@.len() == 0,
            Ok(Some(h)) => data@.len() > 0 && spl_account_ok(data@)
                && h.mint@ == data@.subrange(0, 32)
                && h.owner@ == data@.subrange(32, 64)
                && h.amount == u64_from_le(data@.subrange(64, 72)),
            Err(e) => data@.len() > 0 && !spl_account_ok(data@)
                && e == Error::InvalidAccountData,
        }),
{
    if data.len() == 0 {
        Ok(None)
    } else {
        match unpack_token_account(data) {
            Some(h) => Ok(Some(h)),
            None => Err(Error::InvalidAccountData),
        }
    }
}

} // verus!
