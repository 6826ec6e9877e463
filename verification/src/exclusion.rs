//! Which rows next to the current row a frame leaves out.

use vstd::prelude::*;

verus! {

/// The rows that a frame leaves out of its own aggregation set.
#[derive(Debug, Copy, Clone, PartialEq, Eq, Hash)]
pub enum FrameExclusion {
    /// The current row is left out of its own frame.
    CurrentRow,
    /// Nothing is left out.
    NoOthers,
}

impl Default for FrameExclusion {
    fn default() -> (r: Self)
        ensures
            r == FrameExclusion::NoOthers,
    {
        FrameExclusion::NoOthers
    }
}

} // verus!
