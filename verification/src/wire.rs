//! The messages that carry a frame between planner and workers, as plain
//! values, and the ways in which reading one can fail.

use vstd::prelude::*;

verus! {

/// The unit in which a frame on the wire counts its bounds.
#[derive(Debug, Clone, Copy, PartialEq, Eq, Hash)]
pub enum PbType {
    Unspecified,
    /// Counted in rows.
    Rows,
    /// Counted in groups of peer rows. Reserved: no frame is read from it.
    Groups,
    /// Counted in values of the ordering column. Reserved: no frame is read
    /// from it.
    Range,
}

/// The shape of a bound on the wire.
#[derive(Debug, Clone, Copy, PartialEq, Eq, Hash)]
pub enum PbBoundType {
    Unspecified,
    UnboundedPreceding,
    Preceding,
    CurrentRow,
    Following,
    UnboundedFollowing,
}

/// What a frame on the wire leaves out.
#[derive(Debug, Clone, Copy, PartialEq, Eq, Hash)]
pub enum PbExclusion {
    Unspecified,
    /// The current row.
    CurrentRow,
    /// The current row and its peers. Reserved: no exclusion is read from it.
    Group,
    /// The peers of the current row. Reserved: no exclusion is read from it.
    Ties,
    /// Nothing.
    NoOthers,
}

/// The offset that a bound on the wire carries.
#[derive(Debug, Clone, PartialEq, Eq, Hash)]
pub enum PbOffset {
    /// A count of rows.
    Integer(i64),
    /// An encoded value of the ordering column.
    Datum(Vec<u8>),
}

/// A bound on the wire.
#[derive(Debug, Clone, PartialEq, Eq, Hash)]
pub struct PbBound {
    pub kind: PbBoundType,
    pub offset: Option<PbOffset>,
}

/// A frame on the wire.
#[derive(Debug, Clone, PartialEq, Eq, Hash)]
pub struct PbWindowFrame {
    pub kind: PbType,
    pub start: Option<PbBound>,
    pub end: Option<PbBound>,
    pub exclusion: PbExclusion,
}

/// A window function call on the wire. The kind `K`, the arguments `A` and the
/// return type `R` are resolved before they get here, and are carried through
/// as they are.
#[derive(Debug, Clone, PartialEq, Eq, Hash)]
pub struct PbWindowFunction<K, A, R> {
    pub kind: Option<K>,
    pub args: Option<A>,
    pub return_type: Option<R>,
    pub frame: Option<PbWindowFrame>,
}

/// A part of a message that has to be there.
#[derive(Debug, Clone, Copy, PartialEq, Eq, Hash)]
pub enum WireField {
    Kind,
    Args,
    ReturnType,
    Frame,
    Start,
    End,
    Offset,
}

/// Why a message could not be read.
#[derive(Debug, Clone, Copy, PartialEq, Eq, Hash)]
pub enum DecodeError {
    /// A part that has to be there is absent.
    FieldNotFound(WireField),
    /// The frame does not say in which unit it counts.
    UnspecifiedFrameType,
    /// The frame counts in a unit that is reserved and not supported.
    UnsupportedFrameType,
    /// A bound does not say which shape it has.
    UnspecifiedBoundType,
    /// The frame does not say what it leaves out.
    UnspecifiedExclusion,
    /// The frame leaves out what is reserved and not supported.
    UnsupportedExclusion,
    /// A bound of a row-counted frame carries an offset that is no count of rows.
    OffsetNotInteger,
}

} // verus!
