//! The source of randomness: the thread-local generator of the `rand` crate.
//!
//! Nothing in this file is proved. Each item states what the library
//! assumes of `rand`, and no more than `rand` documents.

use rand::rngs::ThreadRng;
use rand::Rng;
use vstd::prelude::*;

verus! {

/// `rand::rngs::ThreadRng`, a handle to the generator of the current thread.
/// The library only carries it from `thread_rng` to `sample_below`.
#[verifier::external_type_specification]
#[verifier::external_body]
pub struct ExThreadRng(ThreadRng);

/// `rand::thread_rng` hands out the generator of the current thread.
/// Nothing is assumed of its state.
pub assume_specification[ rand::thread_rng ]() -> (rng: ThreadRng);

/// Draws one `u8` by `rand::Rng::gen_range(low, high)`.
///
/// `rand` documents the result as lying in the half-open range from `low` to
/// `high`, and the call as panicking unless `low < high`. Which value of the
/// range comes back is left open.
#[verifier::external_body]
pub(crate) fn sample_below(rng: &mut ThreadRng, low: u8, high: u8) -> (drawn: u8)
    requires
        low < high,
    ensures
        low <= drawn < high,
{
    rng.gen_range(low, high)
}

} // verus!
