//! Trusted access to the process randomness source.

use vstd::prelude::*;

verus! {

/// Relies on `rand::random_range` over `0..bound`: the draw lies in the
/// half-open range, so it is strictly below `bound` (the range is not empty,
/// so the call does not panic).  Nothing more is assumed: two calls on the
/// same bound may differ.
#[verifier::external_body]
pub(crate) fn random_below(bound: u64) -> (r: u64)
    requires
        bound > 0,
    ensures
        r < bound,
{
    rand::random_range(0..bound)
}

} // verus!
