//! The random draws of the pattern library and the reseeder.
use rand::rngs::ThreadRng;
use rand::Rng;
use vstd::prelude::*;

verus! {

/// The generator of random numbers that the draws below take from.
#[verifier::external_type_specification]
#[verifier::external_body]
pub struct ExThreadRng(ThreadRng);

/// Relies on `rand::thread_rng`: a handle on this thread's generator.
#[verifier::external_body]
pub(crate) fn thread_rng() -> (r: ThreadRng) {
    rand::thread_rng()
}

/// Relies on `Rng::gen_range`: a draw from `lo..hi`, which lies in that range
/// (`gen_range` panics on an empty range, hence `lo < hi`).
#[verifier::external_body]
pub(crate) fn random_in(rng: &mut ThreadRng, lo: usize, hi: usize) -> (r: usize)
    requires
        lo < hi,
    ensures
        lo <= r < hi,
{
    rng.gen_range(lo..hi)
}

/// Relies on `Rng::gen_ratio`: true with chance `numerator / denominator`, always
/// false for a zero numerator and always true when numerator and denominator are
/// equal (`gen_ratio` panics on a zero denominator or a numerator above it).
#[verifier::external_body]
pub(crate) fn random_ratio(rng: &mut ThreadRng, numerator: u32, denominator: u32) -> (r: bool)
    requires
        0 < denominator,
        numerator <= denominator,
    ensures
        numerator == 0 ==> !r,
        numerator == denominator ==> r,
{
    rng.gen_ratio(numerator, denominator)
}

} // verus!
