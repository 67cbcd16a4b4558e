//! Fibonacci (golden-ratio) multiplicative mixing of 64-bit integers.

use vstd::prelude::*;

verus! {

/// The 64-bit Fibonacci hashing constant: the odd integer nearest to
/// 2^64 divided by the golden ratio.
pub const FIB_MULTIPLIER: u64 = 11400714819323198549;

/// Golden-ratio multiplicative mixing: `x` times `FIB_MULTIPLIER`,
/// modulo 2^64.
pub open spec fn fib_mix(x: u64) -> u64 {
    x.wrapping_mul(FIB_MULTIPLIER)
}

/// Spread the low bits of `seed` into the high bits by one wrap-around
/// multiplication with the Fibonacci hashing constant.
pub fn hash_u64(seed: u64) -> (mixed: u64)
    ensures
        mixed == fib_mix(seed),
{
    seed.wrapping_mul(FIB_MULTIPLIER)
}

} // verus!
