//! The simulation's only source of chance: uniform integer draws from
//! the process-wide generator.

use vstd::prelude::*;

verus! {

/// Relies on rand::random_range: a draw from the thread-local
/// generator, uniform over `lo..hi`.  It panics only on an empty
/// range, which the precondition rules out; nothing more than the
/// bounds can be promised of a random value.
#[verifier::external_body]
pub(crate) fn draw_in_range(lo: i64, hi: i64) -> (r: i64)
    requires
        lo < hi,
    ensures
        lo <= r < hi,
{
    rand::random_range(lo..hi)
}

} // verus!
