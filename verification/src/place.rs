//! The order of row-counted bounds as places along the partition.

use crate::bound::FrameBound;
use crate::frame::FrameBounds;
use std::cmp::Ordering;
use vstd::prelude::*;
use vstd::std_specs::cmp::PartialOrdIs;
use vstd::std_specs::cmp::PartialOrdSpec;

verus! {

impl FrameBound<usize> {
    /// Where the shape of the bound stands among the five shapes, counted
    /// from the start of the partition.
    pub open spec fn shape_rank(&self) -> int {
        match *self {
            FrameBound::UnboundedPreceding => 0,
            FrameBound::Preceding(_) => 1,
            FrameBound::CurrentRow => 2,
            FrameBound::Following(_) => 3,
            FrameBound::UnboundedFollowing => 4,
        }
    }

    /// Whether the bound stands at an earlier place of the partition than
    /// `other`: its shape comes first, or the shapes are the same and its
    /// signed distance from the current row is the smaller one.
    pub open spec fn is_before(&self, other: &Self) -> bool {
        ||| self.shape_rank() < other.shape_rank()
        ||| {
            &&& self.shape_rank() == other.shape_rank()
            &&& self.offset() matches Some(x)
            &&& other.offset() matches Some(y)
            &&& x < y
        }
    }
}

/// The order of row-counted bounds is their place along the partition. One
/// bound is less than another exactly if it stands before it; two bounds are
/// equal in the order exactly if they are the same bounded bound; and the
/// only bounds in no order are an unbounded end and itself.
pub proof fn lemma_order_is_place(a: FrameBound<usize>, b: FrameBound<usize>)
    ensures
        a.is_lt(&b) <==> a.is_before(&b),
        a.is_gt(&b) <==> b.is_before(&a),
        a.partial_cmp_spec(&b) == Some(Ordering::Equal) <==> a == b && a.offset() is Some,
        a.partial_cmp_spec(&b) is None <==> a == b && a.offset() is None,
{
}

/// A row-counted frame is well formed exactly if its start stands before its
/// end, or both are the same bounded bound.
pub proof fn lemma_valid_is_start_not_after_end(start: FrameBound<usize>, end: FrameBound<usize>)
    ensures
        FrameBounds::Rows(start, end).valid() <==> start.is_before(&end) || (start == end
            && start.offset() is Some),
{
    lemma_order_is_place(start, end);
}

} // verus!
