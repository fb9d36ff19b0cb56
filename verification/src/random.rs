//! Random draws, taken from the thread-local generator of the `rand` crate.
//!
//! The generator seeds itself from the operating system when a thread first
//! uses it, and panics if that fails. No argument of a draw decides this.

use rand::Rng;
use vstd::prelude::*;

verus! {

/// One fair coin flip: `rand::thread_rng().gen::<bool>()`.
///
/// Trusted, not proved. Nothing is claimed of the outcome: either value may
/// come back, and two calls may differ.
#[verifier::external_body]
pub(crate) fn coin_flip() -> (heads: bool) {
    rand::thread_rng().gen::<bool>()
}

/// One index drawn from `0..bound`: `rand::thread_rng().gen_range(0..bound)`.
///
/// Trusted, not proved. `gen_range` panics on an empty range, which `bound > 0`
/// rules out, and hands back a value of the range it was given; that the
/// index lies below `bound` is all that is claimed. Two calls may differ.
#[verifier::external_body]
pub(crate) fn index_below(bound: usize) -> (index: usize)
    requires
        bound > 0,
    ensures
        index < bound,
{
    rand::thread_rng().gen_range(0..bound)
}

} // verus!
