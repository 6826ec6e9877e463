//! One end of a frame, and the order in which two ends stand.

use std::cmp::Ordering;
use vstd::prelude::*;
use vstd::std_specs::cmp::PartialOrdIs;
use vstd::std_specs::cmp::PartialOrdSpec;

verus! {

/// One end of a window frame, measured from the current row by an offset of
/// type `T`.
#[derive(Debug, Clone, PartialEq, Eq, Hash)]
pub enum FrameBound<T> {
    /// The first row of the partition.
    UnboundedPreceding,
    /// That many rows before the current row.
    Preceding(T),
    /// The current row.
    CurrentRow,
    /// That many rows after the current row.
    Following(T),
    /// The last row of the partition.
    UnboundedFollowing,
}

/// Where `a` stands against `b` as far as their shapes alone decide it: in
/// every case but that of two `Preceding` or of two `Following` bounds, where
/// the offsets decide.
///
/// An unbounded end stands outside every other bound and in no order to
/// itself. Rows before the current row stand before it, rows after it after
/// it, whatever the offset, and rows before stand before rows after.
pub open spec fn order_of_shapes<T>(a: FrameBound<T>, b: FrameBound<T>) -> Option<Ordering>
    recommends
        !(a is Preceding && b is Preceding),
        !(a is Following && b is Following),
{
    match (a, b) {
        (FrameBound::UnboundedPreceding, FrameBound::UnboundedPreceding) => None,
        (FrameBound::UnboundedPreceding, _) => Some(Ordering::Less),
        (_, FrameBound::UnboundedPreceding) => Some(Ordering::Greater),
        (FrameBound::UnboundedFollowing, FrameBound::UnboundedFollowing) => None,
        (FrameBound::UnboundedFollowing, _) => Some(Ordering::Greater),
        (_, FrameBound::UnboundedFollowing) => Some(Ordering::Less),
        (FrameBound::CurrentRow, FrameBound::CurrentRow) => Some(Ordering::Equal),
        (FrameBound::Preceding(_), FrameBound::CurrentRow) => Some(Ordering::Less),
        (FrameBound::CurrentRow, FrameBound::Preceding(_)) => Some(Ordering::Greater),
        (FrameBound::Following(_), FrameBound::CurrentRow) => Some(Ordering::Greater),
        (FrameBound::CurrentRow, FrameBound::Following(_)) => Some(Ordering::Less),
        (FrameBound::Preceding(_), FrameBound::Following(_)) => Some(Ordering::Less),
        (FrameBound::Following(_), FrameBound::Preceding(_)) => Some(Ordering::Greater),
        _ => None,
    }
}

impl<T: Ord> vstd::std_specs::cmp::PartialOrdSpecImpl for FrameBound<T> {
    /// Bounds are compared as stated wherever offsets are.
    open spec fn obeys_partial_cmp_spec() -> bool {
        T::obeys_partial_cmp_spec()
    }

    /// Where `self` stands against `other` along the ordered partition: two
    /// `Preceding` bounds in the reverse order of their offsets, two
    /// `Following` bounds in the order of their offsets, and all others as
    /// their shapes say.
    open spec fn partial_cmp_spec(&self, other: &Self) -> Option<Ordering> {
        match (*self, *other) {
            (FrameBound::Preceding(n1), FrameBound::Preceding(n2)) => n2.partial_cmp_spec(&n1),
            (FrameBound::Following(n1), FrameBound::Following(n2)) => n1.partial_cmp_spec(&n2),
            (a, b) => order_of_shapes(a, b),
        }
    }
}

/// A partial order and no total one: `partial_cmp` gives `None` for an
/// unbounded end against itself, so that a frame between two such ends is not
/// taken for a frame between equal bounds.
impl<T: Ord> PartialOrd for FrameBound<T> {
    /// Compares two bounds. Where the shapes decide, the result is theirs,
    /// whatever the type of the offsets; two `Preceding` or two `Following`
    /// bounds are compared by one call of the offsets' own `partial_cmp`, the
    /// arguments of which are swapped for `Preceding`.
    fn partial_cmp(&self, other: &Self) -> (r: Option<Ordering>)
        ensures
            match (*self, *other) {
                (FrameBound::Preceding(n1), FrameBound::Preceding(n2)) => call_ensures(
                    T::partial_cmp,
                    (&n2, &n1),
                    r,
                ),
                (FrameBound::Following(n1), FrameBound::Following(n2)) => call_ensures(
                    T::partial_cmp,
                    (&n1, &n2),
                    r,
                ),
                (a, b) => r == order_of_shapes(a, b),
            },
    {
        match (self, other) {
            (FrameBound::UnboundedPreceding, FrameBound::UnboundedPreceding) => None,
            (FrameBound::UnboundedPreceding, _) => Some(Ordering::Less),
            (_, FrameBound::UnboundedPreceding) => Some(Ordering::Greater),
            (FrameBound::UnboundedFollowing, FrameBound::UnboundedFollowing) => None,
            (FrameBound::UnboundedFollowing, _) => Some(Ordering::Greater),
            (_, FrameBound::UnboundedFollowing) => Some(Ordering::Less),
            (FrameBound::CurrentRow, FrameBound::CurrentRow) => Some(Ordering::Equal),
            (FrameBound::Preceding(_), FrameBound::CurrentRow) => Some(Ordering::Less),
            (FrameBound::CurrentRow, FrameBound::Preceding(_)) => Some(Ordering::Greater),
            (FrameBound::Following(_), FrameBound::CurrentRow) => Some(Ordering::Greater),
            (FrameBound::CurrentRow, FrameBound::Following(_)) => Some(Ordering::Less),
            (FrameBound::Preceding(n1), FrameBound::Preceding(n2)) => n2.partial_cmp(n1),
            (FrameBound::Following(n1), FrameBound::Following(n2)) => n1.partial_cmp(n2),
            (FrameBound::Preceding(_), FrameBound::Following(_)) => Some(Ordering::Less),
            (FrameBound::Following(_), FrameBound::Preceding(_)) => Some(Ordering::Greater),
        }
    }
}

/// The order read from the other side.
pub open spec fn reversed(o: Option<Ordering>) -> Option<Ordering> {
    match o {
        Some(Ordering::Less) => Some(Ordering::Greater),
        Some(Ordering::Equal) => Some(Ordering::Equal),
        Some(Ordering::Greater) => Some(Ordering::Less),
        None => None,
    }
}

/// Neither unbounded end stands in any order to itself: two of them are not
/// equal, and neither is before the other.
pub proof fn lemma_unbounded_against_itself<T: Ord>()
    ensures
        FrameBound::<T>::UnboundedPreceding.partial_cmp_spec(&FrameBound::UnboundedPreceding)
            is None,
        FrameBound::<T>::UnboundedFollowing.partial_cmp_spec(&FrameBound::UnboundedFollowing)
            is None,
{
}

/// `UnboundedPreceding` stands before every other bound, and
/// `UnboundedFollowing` after every other bound.
pub proof fn lemma_unbounded_against_others<T: Ord>(b: FrameBound<T>)
    ensures
        !(b is UnboundedPreceding) ==> {
            &&& FrameBound::<T>::UnboundedPreceding.partial_cmp_spec(&b) == Some(Ordering::Less)
            &&& b.partial_cmp_spec(&FrameBound::UnboundedPreceding) == Some(Ordering::Greater)
        },
        !(b is UnboundedFollowing) ==> {
            &&& FrameBound::<T>::UnboundedFollowing.partial_cmp_spec(&b) == Some(
                Ordering::Greater,
            )
            &&& b.partial_cmp_spec(&FrameBound::UnboundedFollowing) == Some(Ordering::Less)
        },
{
}

/// The current row stands strictly between the rows before it and the rows
/// after it, whatever their offsets: an offset of zero does not make a bound
/// equal to the current row. Only the current row is equal to the current
/// row.
pub proof fn lemma_current_row_between<T: Ord>(before: T, after: T)
    ensures
        FrameBound::Preceding(before).partial_cmp_spec(&FrameBound::CurrentRow) == Some(
            Ordering::Less,
        ),
        FrameBound::<T>::CurrentRow.partial_cmp_spec(&FrameBound::Following(after)) == Some(
            Ordering::Less,
        ),
        FrameBound::Preceding(before).partial_cmp_spec(&FrameBound::Following(after)) == Some(
            Ordering::Less,
        ),
        FrameBound::<T>::CurrentRow.partial_cmp_spec(&FrameBound::CurrentRow) == Some(
            Ordering::Equal,
        ),
{
}

/// Of two offsets, the smaller makes the later `Preceding` bound and the
/// earlier `Following` bound, in whatever order the offsets' type has.
pub proof fn lemma_offsets_order_bounds<T: Ord>(n1: T, n2: T)
    requires
        n1.partial_cmp_spec(&n2) == Some(Ordering::Less),
    ensures
        FrameBound::Preceding(n2).partial_cmp_spec(&FrameBound::Preceding(n1)) == Some(
            Ordering::Less,
        ),
        FrameBound::Following(n1).partial_cmp_spec(&FrameBound::Following(n2)) == Some(
            Ordering::Less,
        ),
{
}

/// Of two row counts, the smaller makes the later `Preceding` bound and the
/// earlier `Following` bound.
pub proof fn lemma_counts_order_bounds(n1: usize, n2: usize)
    requires
        n1 < n2,
    ensures
        FrameBound::Preceding(n2).partial_cmp_spec(&FrameBound::Preceding(n1)) == Some(
            Ordering::Less,
        ),
        FrameBound::Following(n1).partial_cmp_spec(&FrameBound::Following(n2)) == Some(
            Ordering::Less,
        ),
        FrameBound::Preceding(n1).partial_cmp_spec(&FrameBound::Preceding(n2)) == Some(
            Ordering::Greater,
        ),
        FrameBound::Following(n2).partial_cmp_spec(&FrameBound::Following(n1)) == Some(
            Ordering::Greater,
        ),
{
}

/// Row-counted bounds are ordered the same from both sides: what one bound is
/// to another, the other is to it in reverse.
pub proof fn lemma_order_reverses(a: FrameBound<usize>, b: FrameBound<usize>)
    ensures
        b.partial_cmp_spec(&a) == reversed(a.partial_cmp_spec(&b)),
{
}

/// Two row-counted bounds are level only if they are the same bound, and then
/// only if that bound is not an unbounded end.
pub proof fn lemma_level_bounds_are_same(a: FrameBound<usize>, b: FrameBound<usize>)
    ensures
        a.partial_cmp_spec(&b) == Some(Ordering::Equal) <==> a == b && !(a is UnboundedPreceding)
            && !(a is UnboundedFollowing),
{
}

/// Among row-counted bounds, being before is transitive, and so is being
/// before or level.
pub proof fn lemma_order_is_transitive(
    a: FrameBound<usize>,
    b: FrameBound<usize>,
    c: FrameBound<usize>,
)
    ensures
        a.is_lt(&b) && b.is_lt(&c) ==> a.is_lt(&c),
        a.is_le(&b) && b.is_le(&c) ==> a.is_le(&c),
{
}

} // verus!
