//! The random source of the match.
//!
//! Nothing in this file is proved: each function below hands a call to the
//! `rand` crate and states what that crate documents of the answer. All dice
//! and all buff draws of the match go through them.

use rand::seq::IndexedRandom;
use rand::Rng;
use vstd::prelude::*;

verus! {

/// The generator of the current thread, `rand::rngs::ThreadRng`.
#[verifier::external_type_specification]
#[verifier::external_body]
pub struct ExThreadRng(rand::rngs::ThreadRng);

/// `rand::rng`: a handle to the generator of the current thread. Nothing is
/// claimed of it.
#[verifier::external_body]
pub(crate) fn thread_rng() -> (rng: rand::rngs::ThreadRng) {
    rand::rng()
}

/// `IndexedRandom::choose` on a slice of bytes: one of the elements of
/// `nums`, or `None` where `nums` is empty. Which element comes back is left
/// open.
#[verifier::external_body]
pub(crate) fn choose_one(nums: &Vec<u8>, rng: &mut rand::rngs::ThreadRng) -> (picked: Option<u8>)
    ensures
        nums@.len() == 0 ==> picked is None,
        nums@.len() > 0 ==> picked is Some && nums@.contains(picked->0),
{
    nums.choose(rng).copied()
}

/// `Rng::random_range` on the inclusive range `low..=high`: a value of that
/// range. The call panics on an empty range, so `low <= high` is asked for.
/// Which value comes back is left open.
#[verifier::external_body]
pub(crate) fn random_range_inclusive(rng: &mut rand::rngs::ThreadRng, low: u8, high: u8) -> (n: u8)
    requires
        low <= high,
    ensures
        low <= n <= high,
{
    rng.random_range(low..=high)
}

} // verus!
