//! A frame: its two bounds and what it leaves out.

use crate::bound::FrameBound;
use crate::exclusion::FrameExclusion;
use std::cmp::Ordering;
use vstd::prelude::*;
use vstd::std_specs::cmp::PartialOrdSpec;

verus! {

/// The two ends of a frame, by the unit in which they are counted.
#[derive(Debug, Clone, PartialEq, Eq, Hash)]
pub enum FrameBounds {
    /// Start and end, each counted in rows from the current row.
    Rows(FrameBound<usize>, FrameBound<usize>),
}

/// A window frame: its bounds and the rows it leaves out.
#[derive(Debug, Clone, PartialEq, Eq, Hash)]
pub struct Frame {
    pub bounds: FrameBounds,
    pub exclusion: FrameExclusion,
}

impl FrameBounds {
    /// The bound at which the frame starts.
    pub open spec fn start(&self) -> FrameBound<usize> {
        match *self {
            FrameBounds::Rows(start, _) => start,
        }
    }

    /// The bound at which the frame ends.
    pub open spec fn end(&self) -> FrameBound<usize> {
        match *self {
            FrameBounds::Rows(_, end) => end,
        }
    }

    /// A frame is well formed when its start stands before its end or level
    /// with it. A start that stands after the end, or in no order to it, makes
    /// the frame ill formed.
    pub open spec fn valid(&self) -> bool {
        self.start().partial_cmp_spec(&self.end()) matches Some(Ordering::Less | Ordering::Equal)
    }

    /// Whether the start stands before the end or level with it.
    pub fn is_valid(&self) -> (r: bool)
        ensures
            r == self.valid(),
    {
        match self {
            FrameBounds::Rows(start, end) => {
                match start.partial_cmp(end) {
                    Some(Ordering::Less) => true,
                    Some(Ordering::Equal) => true,
                    Some(Ordering::Greater) => false,
                    None => false,
                }
            },
        }
    }

    /// Whether the frame reaches back to the first row of the partition.
    pub fn start_is_unbounded(&self) -> (r: bool)
        ensures
            r == (self.start() is UnboundedPreceding),
    {
        match self {
            FrameBounds::Rows(start, _) => matches!(start, FrameBound::UnboundedPreceding),
        }
    }

    /// Whether the frame reaches on to the last row of the partition.
    pub fn end_is_unbounded(&self) -> (r: bool)
        ensures
            r == (self.end() is UnboundedFollowing),
    {
        match self {
            FrameBounds::Rows(_, end) => matches!(end, FrameBound::UnboundedFollowing),
        }
    }
}

impl Frame {
    /// A row-counted frame from `start` to `end` that leaves nothing out.
    pub fn rows(start: FrameBound<usize>, end: FrameBound<usize>) -> (r: Self)
        ensures
            r == (Frame { bounds: FrameBounds::Rows(start, end), exclusion: FrameExclusion::NoOthers }),
    {
        Frame { bounds: FrameBounds::Rows(start, end), exclusion: FrameExclusion::default() }
    }

    /// A row-counted frame from `start` to `end` that leaves out what
    /// `exclusion` says.
    pub fn rows_with_exclusion(
        start: FrameBound<usize>,
        end: FrameBound<usize>,
        exclusion: FrameExclusion,
    ) -> (r: Self)
        ensures
            r == (Frame { bounds: FrameBounds::Rows(start, end), exclusion }),
    {
        Frame { bounds: FrameBounds::Rows(start, end), exclusion }
    }
}

/// A frame built from a start and an end is well formed exactly if the
/// start is less than the end or equal to it; it is ill formed if the start
/// is greater, and if the two stand in no order.
pub proof fn lemma_valid_is_start_le_end(start: FrameBound<usize>, end: FrameBound<usize>)
    ensures
        FrameBounds::Rows(start, end).valid() <==> (start.partial_cmp_spec(&end) == Some(
            Ordering::Less,
        ) || start.partial_cmp_spec(&end) == Some(Ordering::Equal)),
        !FrameBounds::Rows(start, end).valid() <==> (start.partial_cmp_spec(&end) == Some(
            Ordering::Greater,
        ) || start.partial_cmp_spec(&end) is None),
{
}

} // verus!
