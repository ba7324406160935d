//! The mixing function that spreads a low-entropy seed over 64 bits.
use vstd::prelude::*;

verus! {

/// Multiplier of the final scrambling step.
pub const MIX_MULTIPLIER: u64 = 0x2545F4914F6CDD1D;

/// The mixed value of `seed`: three xor-shift rounds (left 12, right 25,
/// left 27, each on 64 bits) followed by a multiplication by
/// [`MIX_MULTIPLIER`] of which the low 64 bits are kept.
pub open spec fn mix(seed: u64) -> u64 {
    let a = seed ^ (seed << 12u64);
    let b = a ^ (a >> 25u64);
    let c = b ^ (b << 27u64);
    ((c * MIX_MULTIPLIER) % 0x1_0000_0000_0000_0000) as u64
}

/// Mixes `seed`. Deterministic, and not a cryptographic primitive.
pub fn xor_shift(seed: u64) -> (mixed: u64)
    ensures
        mixed == mix(seed),
{
    let mut seed = seed;
    seed ^= seed << 12;
    seed ^= seed >> 25;
    seed ^= seed << 27;
    let wide: u128 = seed as u128 * 0x2545F4914F6CDD1D;
    assert((wide & 0xffff_ffff_ffff_ffff) == wide % 0x1_0000_0000_0000_0000) by (bit_vector);
    (wide & 0xffff_ffff_ffff_ffff) as u64
}

} // verus!
