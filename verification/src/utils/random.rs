//! Random draws from the calling thread's generator.
use rand::rngs::ThreadRng;
use rand::Rng;

use vstd::prelude::*;

verus! {

/// The random number generator of the calling thread.
#[verifier::external_type_specification]
#[verifier::external_body]
pub struct ExThreadRng(ThreadRng);

/// Calls `rand::thread_rng`, which hands out the calling thread's
/// generator (seeded by the system; it panics only if the system has no
/// entropy source). Nothing is stated of the generator.
#[verifier::external_body]
pub(crate) fn system_rng() -> (rng: ThreadRng) {
    rand::thread_rng()
}

/// Calls `Rng::gen_range(low..=high)`: a random value in `[low, high]`.
/// The range must not be empty (`gen_range` panics on an empty range).
#[verifier::external_body]
pub(crate) fn random_in(rng: &mut ThreadRng, low: usize, high: usize) -> (v: usize)
    requires
        low <= high,
    ensures
        low <= v <= high,
{
    rng.gen_range(low..=high)
}

/// Calls `Rng::gen::<u64>()`: a random `u64`. Nothing is stated of it.
#[verifier::external_body]
pub(crate) fn random_u64(rng: &mut ThreadRng) -> (v: u64) {
    rng.gen::<u64>()
}

} // verus!
