use vstd::prelude::*;

use vstd::arithmetic::div_mod::lemma_mod_multiples_vanish;

verus! {

/// The first eight bytes of a randomness payload, read as a little-endian
/// unsigned 64-bit integer.
pub open spec fn le_u64_of(s: Seq<u8>) -> int
    recommends
        s.len() >= 8,
{
    s[0] + s[1] * 0x100 + s[2] * 0x1_0000 + s[3] * 0x100_0000 + s[4] * 0x1_0000_0000
        + s[5] * 0x100_0000_0000 + s[6] * 0x1_0000_0000_0000 + s[7] * 0x100_0000_0000_0000
}

/// Canonical outcome bit of a 64-byte randomness payload: the first eight
/// bytes as a little-endian unsigned 64-bit integer, reduced modulo 2.
pub open spec fn spec_outcome(s: Seq<u8>) -> u8
    recommends
        s.len() >= 8,
{
    (le_u64_of(s) % 2) as u8
}

/// Derives the outcome bit from a fulfilled randomness payload.
///
/// This is the single reproducible derivation every claim is judged by:
/// the same payload always yields the same bit.
pub fn get_vaule(randomness: &[u8; 64]) -> (r: u8)
    ensures
        r == spec_outcome(randomness@),
        r == 0 || r == 1,
{
    let b = randomness;
    let value: u64 = (b[0] as u64) + (b[1] as u64) * 0x100 + (b[2] as u64) * 0x1_0000
        + (b[3] as u64) * 0x100_0000 + (b[4] as u64) * 0x1_0000_0000
        + (b[5] as u64) * 0x100_0000_0000 + (b[6] as u64) * 0x1_0000_0000_0000
        + (b[7] as u64) * 0x100_0000_0000_0000;
    assert(value == le_u64_of(randomness@));
    (value % 2) as u8
}

/// The outcome bit is decided by the parity of the first payload byte:
/// all higher bytes enter the little-endian value with even weight.
pub proof fn lemma_outcome_is_first_byte_parity(s: Seq<u8>)
    requires
        s.len() >= 8,
    ensures
        spec_outcome(s) == s[0] % 2,
{
    let k = s[1] * 0x80 + s[2] * 0x8000 + s[3] * 0x80_0000 + s[4] * 0x8000_0000 + s[5]
        * 0x80_0000_0000 + s[6] * 0x8000_0000_0000 + s[7] * 0x80_0000_0000_0000;
    assert(le_u64_of(s) == 2 * k + s[0]);
    lemma_mod_multiples_vanish(k, s[0] as int, 2);
}

/// Claim derivation is deterministic: equal randomness payloads always
/// yield the same outcome bit.
pub proof fn lemma_outcome_deterministic(a: Seq<u8>, b: Seq<u8>)
    requires
        a == b,
    ensures
        spec_outcome(a) == spec_outcome(b),
{
}

} // verus!
