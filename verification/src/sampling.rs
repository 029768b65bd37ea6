//! Trusted boundary to the `rand` crate: the only randomness the core uses
//! is one uniform sample per coordinate of a spawned target's position.

use vstd::prelude::*;
use rand::Rng;

verus! {

#[verifier::external_type_specification]
#[verifier::external_body]
pub struct ExThreadRng(rand::rngs::ThreadRng);

/// Relies on rand::thread_rng: a handle to the lazily seeded thread-local
/// generator. Nothing can be promised of the values it will produce.
#[verifier::external_body]
pub(crate) fn fresh_rng() -> rand::rngs::ThreadRng {
    rand::thread_rng()
}

/// Relies on rand::Rng::gen_range on a half-open integer range: the sample
/// lies in [lo, hi). The call panics only on an empty range, which the
/// precondition rules out. Which value comes back is left open: callers
/// must hold for every outcome in the range.
#[verifier::external_body]
pub(crate) fn sample_in_range(rng: &mut rand::rngs::ThreadRng, lo: i64, hi: i64) -> (r: i64)
    requires
        lo < hi,
    ensures
        lo <= r < hi,
{
    rng.gen_range(lo..hi)
}

} // verus!
