//! The crate's only source of randomness: the thread-local generator of the
//! `rand` crate, behind trusted declarations.

use vstd::prelude::*;
use rand::Rng;

verus! {

#[verifier::external_type_specification]
#[verifier::external_body]
pub struct ExThreadRng(rand::rngs::ThreadRng);

/// Relies on `rand::thread_rng`: a handle to the thread-local generator.
/// Nothing is assumed about the values it will produce.
#[verifier::external_body]
pub fn fresh_rng() -> rand::rngs::ThreadRng {
    rand::thread_rng()
}

/// Relies on `rand::Rng::gen_range` over an `i64` half-open range: the
/// sample lies in `[lo, hi)`. It panics on an empty range, which the
/// precondition rules out; nothing is assumed about the distribution.
#[verifier::external_body]
pub fn gen_range_i64(rng: &mut rand::rngs::ThreadRng, lo: i64, hi: i64) -> (r: i64)
    requires
        lo < hi,
    ensures
        lo <= r < hi,
{
    rng.gen_range(lo..hi)
}

} // verus!
