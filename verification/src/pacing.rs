//! Waits of random length between the actions of a session.

use vstd::prelude::*;
use rand::Rng;

verus! {

/// `rand::Rng::random_range` on the thread's generator, `rand::rng()`, with
/// an inclusive range: a number drawn from the range, of which nothing more
/// is claimed than that it lies in the range. The call panics on an empty
/// range, which the precondition excludes.
#[verifier::external_body]
fn random_between(min: u64, max: u64) -> (out: u64)
    requires
        min <= max,
    ensures
        min <= out <= max,
{
    rand::rng().random_range(min..=max)
}

/// The length of a wait, in milliseconds: a number drawn anew at each call
/// from `min_ms ..= max_ms`.
pub fn human_delay(min_ms: u64, max_ms: u64) -> (out: u64)
    requires
        min_ms <= max_ms,
    ensures
        min_ms <= out <= max_ms,
{
    random_between(min_ms, max_ms)
}

} // verus!
