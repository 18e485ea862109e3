//! The network stack of the drone.

use vstd::prelude::*;

verus! {

/// The seed of the network stack drawn from two 32-bit random words: the first word makes the
/// high half of the seed, the second the low half.
pub fn seed_of_words(high: u32, low: u32) -> (target_seed: u64)
    ensures
        target_seed == high as int * 0x1_0000_0000 + low as int,
{
    let target_seed = (high as u64) << 32u64 | (low as u64);
    assert(((high as u64) << 32u64 | (low as u64)) == high as u64 * 0x1_0000_0000u64 + low as u64)
        by (bit_vector);
    target_seed
}

} // verus!
