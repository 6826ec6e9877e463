//! Row offsets of a row-counted bound, and the row counts that a sliding
//! window keeps before and after the current row.

use crate::bound::FrameBound;
use vstd::prelude::*;

verus! {

/// The number of rows that a signed distance `x` stands for: `x` itself where
/// it is positive, and none otherwise.
pub open spec fn rows_of(x: int) -> int {
    if x > 0 {
        x
    } else {
        0
    }
}

impl FrameBound<usize> {
    /// The signed distance of the bound from the current row, in rows: minus
    /// the count for `Preceding`, the count for `Following`, zero for the
    /// current row, and `None` for the two unbounded ends.
    pub open spec fn offset(&self) -> Option<int> {
        match *self {
            FrameBound::UnboundedPreceding => None,
            FrameBound::Preceding(n) => Some(-(n as int)),
            FrameBound::CurrentRow => Some(0int),
            FrameBound::Following(n) => Some(n as int),
            FrameBound::UnboundedFollowing => None,
        }
    }

    /// Whether the signed distance of the bound, if it has one, can be held
    /// in an `isize`.
    pub open spec fn offset_fits(&self) -> bool {
        self.offset() matches Some(x) ==> isize::MIN <= x <= isize::MAX
    }

    /// The rows before the current row that a frame starting at this bound
    /// takes in: `rows_of` the negated distance, `None` where there is none.
    pub open spec fn preceding_rows(&self) -> Option<int> {
        match self.offset() {
            Some(x) => Some(rows_of(-x)),
            None => None,
        }
    }

    /// The rows after the current row that a frame ending at this bound takes
    /// in: `rows_of` the distance, `None` where there is none.
    pub open spec fn following_rows(&self) -> Option<int> {
        match self.offset() {
            Some(x) => Some(rows_of(x)),
            None => None,
        }
    }

    /// The bound as a signed offset from the current row, `None` if the bound
    /// is unbounded. The offset has to fit in an `isize`: the count of a
    /// `Following` bound may be `isize::MAX` at most, that of a `Preceding`
    /// bound one more.
    pub fn to_offset(&self) -> (r: Option<isize>)
        requires
            self.offset_fits(),
        ensures
            self.offset() == match r {
                Some(x) => Some(x as int),
                None => None::<int>,
            },
    {
        match self {
            FrameBound::UnboundedPreceding => None,
            FrameBound::UnboundedFollowing => None,
            FrameBound::CurrentRow => Some(0),
            FrameBound::Preceding(n) => {
                if *n <= isize::MAX as usize {
                    Some(-(*n as isize))
                } else {
                    // One count more than `isize::MAX` still has its negation
                    // in an `isize`: the least one.
                    Some(isize::MIN)
                }
            },
            FrameBound::Following(n) => Some(*n as isize),
        }
    }

    /// Takes the bound as a frame start and gives the number of rows before
    /// the current row that the frame takes in.
    pub fn n_preceding_rows(&self) -> (r: Option<usize>)
        ensures
            self.preceding_rows() == match r {
                Some(k) => Some(k as int),
                None => None::<int>,
            },
    {
        match self {
            FrameBound::UnboundedPreceding => None,
            FrameBound::UnboundedFollowing => None,
            FrameBound::CurrentRow => Some(0),
            FrameBound::Preceding(n) => Some(*n),
            FrameBound::Following(_) => Some(0),
        }
    }

    /// Takes the bound as a frame end and gives the number of rows after the
    /// current row that the frame takes in.
    pub fn n_following_rows(&self) -> (r: Option<usize>)
        ensures
            self.following_rows() == match r {
                Some(k) => Some(k as int),
                None => None::<int>,
            },
    {
        match self {
            FrameBound::UnboundedPreceding => None,
            FrameBound::UnboundedFollowing => None,
            FrameBound::CurrentRow => Some(0),
            FrameBound::Preceding(_) => Some(0),
            FrameBound::Following(n) => Some(*n),
        }
    }
}

/// The two row counts of a bound agree with its distance from the current
/// row: neither is negative, at most one of them is more than zero, and the
/// rows after less the rows before are the distance. An unbounded end has
/// neither count.
pub proof fn lemma_row_counts_agree_with_offset(b: FrameBound<usize>)
    ensures
        b.offset() is None ==> b.preceding_rows() is None && b.following_rows() is None,
        b.offset() is Some ==> {
            &&& b.preceding_rows() is Some
            &&& b.following_rows() is Some
            &&& b.preceding_rows()->0 >= 0
            &&& b.following_rows()->0 >= 0
            &&& b.preceding_rows()->0 == 0 || b.following_rows()->0 == 0
            &&& b.following_rows()->0 - b.preceding_rows()->0 == b.offset()->0
        },
{
}

/// The rows that a window keeps for a frame cover the frame and the current
/// row, and no more: the rows kept before the current row reach back to the
/// frame's start or to the current row, whichever is the earlier, and the
/// rows kept after it reach on to the frame's end or to the current row,
/// whichever is the later.
pub proof fn lemma_kept_rows_cover_frame(start: FrameBound<usize>, end: FrameBound<usize>)
    requires
        start.offset() is Some,
        end.offset() is Some,
    ensures
        -start.preceding_rows()->0 <= start.offset()->0,
        -start.preceding_rows()->0 <= 0,
        -start.preceding_rows()->0 == start.offset()->0 || start.preceding_rows()->0 == 0,
        end.offset()->0 <= end.following_rows()->0,
        0 <= end.following_rows()->0,
        end.following_rows()->0 == end.offset()->0 || end.following_rows()->0 == 0,
{
}

} // verus!
