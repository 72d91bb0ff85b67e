//! Pseudo-random source used once, at world spawn, to scatter the decorative
//! particles. The generator itself comes from the `rand` crate; the rest of
//! the library only sees plain integers drawn from a stated range.

use vstd::prelude::*;
use rand::rngs::StdRng;
use rand::Rng;
use rand::SeedableRng;

verus! {

#[verifier::external_type_specification]
#[verifier::external_body]
pub struct ExStdRng(StdRng);

/// Relies on rand::SeedableRng::seed_from_u64: builds a generator from a
/// 64-bit seed; it never panics. Nothing is assumed about the values the
/// generator will produce.
#[verifier::external_body]
pub(crate) fn rng_from_seed(seed: u64) -> StdRng {
    StdRng::seed_from_u64(seed)
}

/// Relies on rand::Rng::gen_range over a half-open `i32` range: it panics
/// only on an empty range, and returns a value drawn from `[lo, hi)`.
#[verifier::external_body]
pub(crate) fn rng_range(rng: &mut StdRng, lo: i32, hi: i32) -> (r: i32)
    requires
        lo < hi,
    ensures
        lo <= r < hi,
{
    rng.gen_range(lo..hi)
}

} // verus!
