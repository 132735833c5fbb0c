use vstd::prelude::*;

use crate::state::AccountId;

verus! {

/// What `Pubkey::try_find_program_address` returns for given seeds under a
/// given program id: the derived address and its bump proof, or nothing in
/// the statistically improbable event that no bump is viable (or when a
/// seed breaks the derivation's length limits).
pub uninterp spec fn program_address_of(seeds: Seq<Seq<u8>>, program_id: Seq<u8>) -> Option<
    (Seq<u8>, u8),
>;

/// Relies on `solana_program::pubkey::Pubkey::try_find_program_address`:
/// the result is a function of the seeds and the program id alone, and the
/// off-chain path never panics — limit violations come back as `None`.
#[verifier::external_body]
fn find_program_address(seeds: &Vec<Vec<u8>>, program_id: &[u8; 32]) -> (r: Option<
    ([u8; 32], u8),
>)
    ensures
        r matches Some(p) ==> program_address_of(seeds.deep_view(), program_id@) == Some(
            (p.0@, p.1),
        ),
        r is None ==> program_address_of(seeds.deep_view(), program_id@) is None,
{
    let refs: Vec<&[u8]> = seeds.iter().map(|s| s.as_slice()).collect();
    let id = solana_program::pubkey::Pubkey::new_from_array(*program_id);
    solana_program::pubkey::Pubkey::try_find_program_address(&refs, &id)
        .map(|(address, bump)| (address.to_bytes(), bump))
}

/// The deployed program's own identity, as address bytes.
pub open spec fn spec_program_id() -> Seq<u8> {
    seq![
        54u8, 157, 251, 53, 175, 65, 215, 63, 61, 96, 102, 151, 34, 212, 61, 66, 113, 4, 240, 17,
        39, 167, 212, 57, 57, 146, 43, 111, 184, 187, 124, 215,
    ]
}

/// The deployed program's own identity.
pub fn program_id() -> (r: AccountId)
    ensures
        r@ == spec_program_id(),
{
    let bytes: [u8; 32] = [
        54u8, 157, 251, 53, 175, 65, 215, 63, 61, 96, 102, 151, 34, 212, 61, 66, 113, 4, 240, 17,
        39, 167, 212, 57, 57, 146, 43, 111, 184, 187, 124, 215,
    ];
    assert(bytes@ =~= spec_program_id());
    AccountId { bytes }
}

/// The derivation seed of the vault account.
pub open spec fn spec_vault_seed() -> Seq<u8> {
    seq![86u8, 65, 85, 76, 84, 95, 83, 69, 69, 68,]
}

/// The derivation seed of the vault account (ASCII `VAULT_SEED`).
pub fn vault_seed() -> (r: Vec<u8>)
    ensures
        r@ == spec_vault_seed(),
{
    let r: Vec<u8> = vec![86u8, 65, 85, 76, 84, 95, 83, 69, 69, 68];
    assert(r@ =~= spec_vault_seed());
    r
}

/// Recomputes a derived authority under this program from a seed: the
/// identity it stands for and the numeric proof (bump) that authorizes it.
/// Nothing is persisted; the pair is rebuilt on demand at transfer time.
pub fn derive_authority(seed: Vec<u8>) -> (r: Option<(AccountId, u8)>)
    ensures
        r matches Some(a) ==> program_address_of(seq![seed@], spec_program_id()) == Some(
            (a.0@, a.1),
        ),
        r is None ==> program_address_of(seq![seed@], spec_program_id()) is None,
{
    let ghost seed_view = seed@;
    let mut seeds: Vec<Vec<u8>> = Vec::new();
    seeds.push(seed);
    assert(seeds.deep_view() =~~= seq![seed_view]);
    let id = program_id();
    match find_program_address(&seeds, &id.bytes) {
        Some((bytes, bump)) => Some((AccountId { bytes }, bump)),
        None => None,
    }
}

} // verus!
