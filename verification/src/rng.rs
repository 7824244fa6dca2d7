//! The one source of randomness: a draw from a half-open integer range.
//!
//! Asteroid spawning and recycling use it for horizontal positions, fall
//! speeds and drifts. Every caller states what holds of any value in the
//! range, never of a particular draw.

use vstd::prelude::*;

use rand::Rng;

verus! {

/// Relies on rand's `Rng::gen_range` (with `rand::thread_rng`): it returns
/// a value of the half-open range `lo..hi` and panics only when that range
/// is empty.
#[verifier::external_body]
pub(crate) fn random_in_range(lo: i64, hi: i64) -> (r: i64)
    requires
        lo < hi,
    ensures
        lo <= r < hi,
{
    rand::thread_rng().gen_range(lo..hi)
}

} // verus!
