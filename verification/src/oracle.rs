use vstd::prelude::*;

use anchor_lang::AccountDeserialize;

verus! {

/// What the oracle's namespace derives from a request nonce: the identity
/// of the randomness-request record keyed by that 32-byte `force`.
pub uninterp spec fn randomness_key_of(force: Seq<u8>) -> Seq<u8>;

/// What a randomness record's raw bytes decode to: the 64-byte fulfilled
/// payload, or nothing while the record is unfulfilled or does not decode.
pub uninterp spec fn fulfillment_of(data: Seq<u8>) -> Option<Seq<u8>>;

/// Relies on `orao_solana_vrf::randomness_account_address`: the request
/// record's address is derived from the nonce alone, under the oracle
/// program's fixed identity.
#[verifier::external_body]
pub(crate) fn randomness_account_key(force: &[u8; 32]) -> (r: [u8; 32])
    ensures
        r@ == randomness_key_of(force@),
{
    orao_solana_vrf::randomness_account_address(&orao_solana_vrf::ID, force).to_bytes()
}

/// Relies on `orao_solana_vrf::state::Randomness::try_deserialize` and
/// `Randomness::fulfilled`: both are functions of the record bytes alone.
/// A decoded record lays out an 8-byte discriminator, the 32-byte seed,
/// then the 64 randomness bytes; `fulfilled` hands those 64 bytes out
/// exactly when they are not all zero.
#[verifier::external_body]
pub(crate) fn query_fulfillment(data: &Vec<u8>) -> (r: Option<[u8; 64]>)
    ensures
        r matches Some(x) ==> fulfillment_of(data@) == Some(x@),
        r is None ==> fulfillment_of(data@) is None,
        r matches Some(x) ==> data@.len() >= 104 && x@ == data@.subrange(40, 104),
{
    match orao_solana_vrf::state::Randomness::try_deserialize(&mut data.as_slice()) {
        Ok(record) => record.fulfilled().copied(),
        Err(_) => None,
    }
}

} // verus!
