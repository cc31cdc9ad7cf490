//! The integer mixing hash that drives every deterministic choice of the
//! ecosystem (soup seeding, zone spawning, environment shifts, visual phase).

use vstd::prelude::*;

verus! {

/// The mixing function: xor the seed with two multiplicative salts of the
/// coordinates, then apply two xor-shift rounds around one wrapping multiply.
pub open spec fn mix_hash(seed: u64, x: usize, y: usize) -> usize {
    let v0 = seed as usize;
    let v1 = v0 ^ x.wrapping_mul(374_761_393usize);
    let v2 = v1 ^ y.wrapping_mul(668_265_263usize);
    let v3 = (v2 ^ (v2 >> 13usize)).wrapping_mul(1_274_126_177usize);
    v3 ^ (v3 >> 16usize)
}

/// Hashes a seed and a pair of coordinates into a well-spread `usize`.
pub fn hash(seed: u64, x: usize, y: usize) -> (r: usize)
    ensures
        r == mix_hash(seed, x, y),
{
    let mut value = seed as usize;
    value = value ^ x.wrapping_mul(374_761_393usize);
    value = value ^ y.wrapping_mul(668_265_263usize);
    value = (value ^ (value >> 13usize)).wrapping_mul(1_274_126_177usize);
    value ^ (value >> 16usize)
}

} // verus!
