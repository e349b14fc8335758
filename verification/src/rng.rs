//! Trusted boundary around the `rand` crate.
//!
//! Every random draw the simulation makes goes through the two wrappers
//! below, so a caller is verified against what holds of every possible
//! outcome, never against one particular draw.

use rand::Rng;
use vstd::prelude::*;

verus! {

#[verifier::external_type_specification]
#[verifier::external_body]
pub struct ExThreadRng(rand::rngs::ThreadRng);

/// Relies on rand's thread_rng: hands out the thread-local generator.
#[verifier::external_body]
pub(crate) fn new_rng() -> rand::rngs::ThreadRng {
    rand::thread_rng()
}

/// Relies on rand's Rng::gen_range on `0..n`: a uniform draw below `n`;
/// it panics only on an empty range, which `n > 0` rules out.
#[verifier::external_body]
pub(crate) fn rand_below(rng: &mut rand::rngs::ThreadRng, n: usize) -> (r: usize)
    requires
        n > 0,
    ensures
        r < n,
{
    rng.gen_range(0..n)
}

/// Relies on rand's Rng::gen for bool (the Standard distribution):
/// a fair coin. Nothing can be promised of which side comes up.
#[verifier::external_body]
pub(crate) fn rand_coin(rng: &mut rand::rngs::ThreadRng) -> bool {
    rng.gen()
}

} // verus!
