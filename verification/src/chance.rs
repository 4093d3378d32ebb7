//! Random draws.

use vstd::prelude::*;
use rand::rngs::ThreadRng;

verus! {

/// `rand::rngs::ThreadRng`, the random number generator of a thread.
/// Nothing inside it is seen here.
#[verifier::external_type_specification]
#[verifier::external_body]
pub struct ExThreadRng(ThreadRng);

/// `rand::thread_rng`: the generator of the calling thread. Nothing is
/// claimed of it.
#[verifier::external_body]
pub(crate) fn thread_rng() -> (rng: ThreadRng) {
    rand::thread_rng()
}

/// `rand::Rng::gen_range`: a value from `low` up to but not including
/// `high`. Which one is left open. The call panics unless `low < high`.
#[verifier::external_body]
pub(crate) fn gen_range(rng: &mut ThreadRng, low: i64, high: i64) -> (value: i64)
    requires
        low < high,
    ensures
        low <= value < high,
{
    rand::Rng::gen_range(rng, low, high)
}

/// `rand::random`, for a `bool`. Nothing is claimed of the result.
#[verifier::external_body]
pub(crate) fn random_bool() -> (value: bool) {
    rand::random()
}

} // verus!
