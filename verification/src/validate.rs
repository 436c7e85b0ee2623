//! Geometric sanity check on a fitted lane pair.

use vstd::prelude::*;
use crate::extrapolate::LaneEndpoints;

verus! {

/// A lane pair is sound when both sides are present and the right boundary
/// lies strictly to the right of the left one at both vertical levels;
/// anything else (a missing side, crossed or swapped fits) is unsound.
pub open spec fn lanes_valid(left: Option<LaneEndpoints>, right: Option<LaneEndpoints>) -> bool {
    match (left, right) {
        (Some(l), Some(r)) => r.near.x > l.near.x && r.far.x > l.far.x,
        _ => false,
    }
}

/// Checks left/right ordering and non-crossing of a lane pair.
pub struct LaneValidator;

impl LaneValidator {
    /// Returns `false` when either side is absent, and `true` exactly when
    /// the right boundary is strictly right of the left one at both the
    /// near and the far level. Pure predicate; advisory for the caller.
    pub fn validate(left: &Option<LaneEndpoints>, right: &Option<LaneEndpoints>) -> (r: bool)
        ensures
            r == lanes_valid(*left, *right),
    {
        match (left, right) {
            (Some(l), Some(rr)) => rr.near.x > l.near.x && rr.far.x > l.far.x,
            _ => false,
        }
    }
}

} // verus!
