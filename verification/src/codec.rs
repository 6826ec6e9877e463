//! Frames to wire messages and back.

use crate::bound::FrameBound;
use crate::exclusion::FrameExclusion;
use crate::frame::Frame;
use crate::frame::FrameBounds;
use crate::wire::DecodeError;
use crate::wire::PbBound;
use crate::wire::PbBoundType;
use crate::wire::PbExclusion;
use crate::wire::PbOffset;
use crate::wire::PbType;
use crate::wire::PbWindowFrame;
use crate::wire::WireField;
use vstd::prelude::*;

verus! {

/// The integer that carries a count of rows on the wire: the count itself
/// where an `i64` can hold it, else the `i64` with the same low 64 bits.
pub open spec fn count_to_wire(n: usize) -> i64 {
    n as i64
}

/// The count of rows that an integer on the wire stands for: the integer
/// itself where a `usize` can hold it, else its low bits.
pub open spec fn count_from_wire(x: i64) -> usize {
    x as usize
}

/// A count that an `i64` can hold goes onto the wire unchanged.
pub proof fn lemma_small_count_to_wire(n: usize)
    requires
        n <= i64::MAX,
    ensures
        count_to_wire(n) == n,
{
}

/// An integer that a `usize` can hold comes off the wire unchanged.
pub proof fn lemma_small_count_from_wire(x: i64)
    requires
        0 <= x <= usize::MAX,
    ensures
        count_from_wire(x) == x,
{
}

/// Every count comes back from the wire as it went.
pub proof fn lemma_count_round_trip(n: usize)
    ensures
        count_from_wire(count_to_wire(n)) == n,
{
    assert(((n as i64) as usize) == n) by (bit_vector);
}

impl FrameExclusion {
    /// What an exclusion on the wire reads as.
    pub open spec fn decode(exclusion: PbExclusion) -> Result<FrameExclusion, DecodeError> {
        match exclusion {
            PbExclusion::Unspecified => Err(DecodeError::UnspecifiedExclusion),
            PbExclusion::CurrentRow => Ok(FrameExclusion::CurrentRow),
            PbExclusion::Group => Err(DecodeError::UnsupportedExclusion),
            PbExclusion::Ties => Err(DecodeError::UnsupportedExclusion),
            PbExclusion::NoOthers => Ok(FrameExclusion::NoOthers),
        }
    }

    /// The exclusion as it stands on the wire.
    pub open spec fn encode(self) -> PbExclusion {
        match self {
            FrameExclusion::CurrentRow => PbExclusion::CurrentRow,
            FrameExclusion::NoOthers => PbExclusion::NoOthers,
        }
    }

    /// Reads an exclusion from the wire. One that is unspecified is refused,
    /// and so is one that is reserved.
    pub fn from_protobuf(exclusion: PbExclusion) -> (r: Result<Self, DecodeError>)
        ensures
            r == Self::decode(exclusion),
    {
        match exclusion {
            PbExclusion::Unspecified => Err(DecodeError::UnspecifiedExclusion),
            PbExclusion::CurrentRow => Ok(FrameExclusion::CurrentRow),
            PbExclusion::Group => Err(DecodeError::UnsupportedExclusion),
            PbExclusion::Ties => Err(DecodeError::UnsupportedExclusion),
            PbExclusion::NoOthers => Ok(FrameExclusion::NoOthers),
        }
    }

    /// Writes the exclusion for the wire, so that reading it gives the
    /// exclusion back.
    pub fn to_protobuf(self) -> (r: PbExclusion)
        ensures
            r == self.encode(),
            Self::decode(r) == Ok::<FrameExclusion, DecodeError>(self),
    {
        match self {
            FrameExclusion::CurrentRow => PbExclusion::CurrentRow,
            FrameExclusion::NoOthers => PbExclusion::NoOthers,
        }
    }
}

impl FrameBound<usize> {
    /// What a bound on the wire reads as in a row-counted frame. The offset
    /// has to be there and has to be an integer, whatever the shape; the shape
    /// has to be specified. The integer counts only for `Preceding` and
    /// `Following`.
    pub open spec fn decode(bound: PbBound) -> Result<FrameBound<usize>, DecodeError> {
        match bound.offset {
            None => Err(DecodeError::FieldNotFound(WireField::Offset)),
            Some(PbOffset::Datum(_)) => Err(DecodeError::OffsetNotInteger),
            Some(PbOffset::Integer(x)) => match bound.kind {
                PbBoundType::Unspecified => Err(DecodeError::UnspecifiedBoundType),
                PbBoundType::UnboundedPreceding => Ok(FrameBound::UnboundedPreceding),
                PbBoundType::Preceding => Ok(FrameBound::Preceding(count_from_wire(x))),
                PbBoundType::CurrentRow => Ok(FrameBound::CurrentRow),
                PbBoundType::Following => Ok(FrameBound::Following(count_from_wire(x))),
                PbBoundType::UnboundedFollowing => Ok(FrameBound::UnboundedFollowing),
            },
        }
    }

    /// The bound as it stands on the wire: its shape, and its count as an
    /// integer. A bound without a count carries the integer 0.
    pub open spec fn encode(&self) -> PbBound {
        match *self {
            FrameBound::UnboundedPreceding => PbBound {
                kind: PbBoundType::UnboundedPreceding,
                offset: Some(PbOffset::Integer(0)),
            },
            FrameBound::Preceding(n) => PbBound {
                kind: PbBoundType::Preceding,
                offset: Some(PbOffset::Integer(count_to_wire(n))),
            },
            FrameBound::CurrentRow => PbBound {
                kind: PbBoundType::CurrentRow,
                offset: Some(PbOffset::Integer(0)),
            },
            FrameBound::Following(n) => PbBound {
                kind: PbBoundType::Following,
                offset: Some(PbOffset::Integer(count_to_wire(n))),
            },
            FrameBound::UnboundedFollowing => PbBound {
                kind: PbBoundType::UnboundedFollowing,
                offset: Some(PbOffset::Integer(0)),
            },
        }
    }

    /// Reads a bound of a row-counted frame from the wire.
    pub fn from_protobuf(bound: &PbBound) -> (r: Result<Self, DecodeError>)
        ensures
            r == Self::decode(*bound),
    {
        match &bound.offset {
            None => Err(DecodeError::FieldNotFound(WireField::Offset)),
            Some(PbOffset::Datum(_)) => Err(DecodeError::OffsetNotInteger),
            Some(PbOffset::Integer(x)) => match bound.kind {
                PbBoundType::Unspecified => Err(DecodeError::UnspecifiedBoundType),
                PbBoundType::UnboundedPreceding => Ok(FrameBound::UnboundedPreceding),
                PbBoundType::Preceding => Ok(
                    FrameBound::Preceding(
                        #[verifier::truncate]
                        (*x as usize),
                    ),
                ),
                PbBoundType::CurrentRow => Ok(FrameBound::CurrentRow),
                PbBoundType::Following => Ok(
                    FrameBound::Following(
                        #[verifier::truncate]
                        (*x as usize),
                    ),
                ),
                PbBoundType::UnboundedFollowing => Ok(FrameBound::UnboundedFollowing),
            },
        }
    }

    /// Writes the bound for the wire, so that reading it gives the bound
    /// back.
    pub fn to_protobuf(&self) -> (r: PbBound)
        ensures
            r == self.encode(),
            Self::decode(r) == Ok::<FrameBound<usize>, DecodeError>(*self),
    {
        proof {
            lemma_bound_round_trip(*self);
        }
        let (kind, offset) = match self {
            FrameBound::UnboundedPreceding => (PbBoundType::UnboundedPreceding, 0i64),
            FrameBound::Preceding(n) => (
                PbBoundType::Preceding,
                #[verifier::truncate]
                (*n as i64),
            ),
            FrameBound::CurrentRow => (PbBoundType::CurrentRow, 0i64),
            FrameBound::Following(n) => (
                PbBoundType::Following,
                #[verifier::truncate]
                (*n as i64),
            ),
            FrameBound::UnboundedFollowing => (PbBoundType::UnboundedFollowing, 0i64),
        };
        PbBound { kind, offset: Some(PbOffset::Integer(offset)) }
    }
}

impl Frame {
    /// What a frame on the wire reads as. The unit is looked at first, then
    /// the start, the end and the exclusion, and the first that cannot be read
    /// decides the error. Only a frame counted in rows is read.
    pub open spec fn decode(frame: PbWindowFrame) -> Result<Frame, DecodeError> {
        match frame.kind {
            PbType::Unspecified => Err(DecodeError::UnspecifiedFrameType),
            PbType::Groups => Err(DecodeError::UnsupportedFrameType),
            PbType::Range => Err(DecodeError::UnsupportedFrameType),
            PbType::Rows => match frame.start {
                None => Err(DecodeError::FieldNotFound(WireField::Start)),
                Some(s) => match FrameBound::decode(s) {
                    Err(e) => Err(e),
                    Ok(start) => match frame.end {
                        None => Err(DecodeError::FieldNotFound(WireField::End)),
                        Some(e) => match FrameBound::decode(e) {
                            Err(e) => Err(e),
                            Ok(end) => match FrameExclusion::decode(frame.exclusion) {
                                Err(e) => Err(e),
                                Ok(exclusion) => Ok(
                                    Frame { bounds: FrameBounds::Rows(start, end), exclusion },
                                ),
                            },
                        },
                    },
                },
            },
        }
    }

    /// The frame as it stands on the wire.
    pub open spec fn encode(&self) -> PbWindowFrame {
        PbWindowFrame {
            kind: PbType::Rows,
            start: Some(self.bounds.start().encode()),
            end: Some(self.bounds.end().encode()),
            exclusion: self.exclusion.encode(),
        }
    }

    /// Reads a frame from the wire.
    pub fn from_protobuf(frame: &PbWindowFrame) -> (r: Result<Self, DecodeError>)
        ensures
            r == Self::decode(*frame),
    {
        let bounds = match frame.kind {
            PbType::Unspecified => {
                return Err(DecodeError::UnspecifiedFrameType);
            },
            PbType::Groups => {
                return Err(DecodeError::UnsupportedFrameType);
            },
            PbType::Range => {
                return Err(DecodeError::UnsupportedFrameType);
            },
            PbType::Rows => {
                let start = match &frame.start {
                    None => {
                        return Err(DecodeError::FieldNotFound(WireField::Start));
                    },
                    Some(s) => match FrameBound::from_protobuf(s) {
                        Err(e) => {
                            return Err(e);
                        },
                        Ok(start) => start,
                    },
                };
                let end = match &frame.end {
                    None => {
                        return Err(DecodeError::FieldNotFound(WireField::End));
                    },
                    Some(e) => match FrameBound::from_protobuf(e) {
                        Err(e) => {
                            return Err(e);
                        },
                        Ok(end) => end,
                    },
                };
                FrameBounds::Rows(start, end)
            },
        };
        match FrameExclusion::from_protobuf(frame.exclusion) {
            Err(e) => Err(e),
            Ok(exclusion) => Ok(Frame { bounds, exclusion }),
        }
    }

    /// Writes the frame for the wire, so that reading it gives the frame
    /// back.
    pub fn to_protobuf(&self) -> (r: PbWindowFrame)
        ensures
            r == self.encode(),
            Self::decode(r) == Ok::<Frame, DecodeError>(*self),
    {
        proof {
            lemma_frame_round_trip(*self);
        }
        let exclusion = self.exclusion.to_protobuf();
        match &self.bounds {
            FrameBounds::Rows(start, end) => PbWindowFrame {
                kind: PbType::Rows,
                start: Some(start.to_protobuf()),
                end: Some(end.to_protobuf()),
                exclusion,
            },
        }
    }
}

/// A bound that is written for the wire and read back is the bound that was
/// written.
pub proof fn lemma_bound_round_trip(bound: FrameBound<usize>)
    ensures
        FrameBound::decode(bound.encode()) == Ok::<FrameBound<usize>, DecodeError>(bound),
{
    match bound {
        FrameBound::Preceding(n) => lemma_count_round_trip(n),
        FrameBound::Following(n) => lemma_count_round_trip(n),
        _ => {},
    }
}

/// An exclusion that is written for the wire and read back is the exclusion
/// that was written.
pub proof fn lemma_exclusion_round_trip(exclusion: FrameExclusion)
    ensures
        FrameExclusion::decode(exclusion.encode()) == Ok::<FrameExclusion, DecodeError>(exclusion),
{
}

/// A frame that is written for the wire and read back is the frame that was
/// written: the same bounds, counted in the same unit, and the same exclusion.
pub proof fn lemma_frame_round_trip(frame: Frame)
    ensures
        Frame::decode(frame.encode()) == Ok::<Frame, DecodeError>(frame),
{
    lemma_bound_round_trip(frame.bounds.start());
    lemma_bound_round_trip(frame.bounds.end());
    lemma_exclusion_round_trip(frame.exclusion);
}

/// A bound without a count goes onto the wire with the integer 0.
pub proof fn lemma_countless_bound_carries_zero(bound: FrameBound<usize>)
    requires
        !(bound is Preceding),
        !(bound is Following),
    ensures
        bound.encode().offset == Some(PbOffset::Integer(0)),
{
}

/// Nothing unspecified is ever read: neither a bound without a shape, nor an
/// exclusion that names none, nor a frame that has no unit, or such a bound
/// at one of its ends, or such an exclusion. None of them is taken for a
/// default.
pub proof fn lemma_unspecified_is_refused(frame: PbWindowFrame, bound: PbBound)
    ensures
        bound.kind is Unspecified ==> FrameBound::decode(bound) is Err,
        FrameExclusion::decode(PbExclusion::Unspecified) is Err,
        frame.kind is Unspecified ==> Frame::decode(frame) is Err,
        (frame.start == Some(bound) && bound.kind is Unspecified) ==> Frame::decode(frame) is Err,
        (frame.end == Some(bound) && bound.kind is Unspecified) ==> Frame::decode(frame) is Err,
        frame.exclusion is Unspecified ==> Frame::decode(frame) is Err,
{
}

/// Nothing reserved is ever read: a frame that counts in groups or in values
/// of the ordering column is refused and not taken for one that counts in
/// rows, and an exclusion of peers is refused and not taken for none.
pub proof fn lemma_reserved_is_refused(frame: PbWindowFrame)
    ensures
        frame.kind is Groups || frame.kind is Range ==> Frame::decode(frame) == Err::<
            Frame,
            DecodeError,
        >(DecodeError::UnsupportedFrameType),
        FrameExclusion::decode(PbExclusion::Group) == Err::<FrameExclusion, DecodeError>(
            DecodeError::UnsupportedExclusion,
        ),
        FrameExclusion::decode(PbExclusion::Ties) == Err::<FrameExclusion, DecodeError>(
            DecodeError::UnsupportedExclusion,
        ),
        frame.exclusion is Group || frame.exclusion is Ties ==> Frame::decode(frame) is Err,
{
}

/// A frame is only ever read from a message that counts in rows, holds both
/// bounds, and names one of the two exclusions that are supported.
pub proof fn lemma_read_frame_was_well_shaped(frame: PbWindowFrame)
    requires
        Frame::decode(frame) is Ok,
    ensures
        frame.kind is Rows,
        frame.start is Some,
        frame.end is Some,
        frame.exclusion is CurrentRow || frame.exclusion is NoOthers,
{
}

/// A bound whose offset is no integer is refused, whatever its shape.
pub proof fn lemma_datum_offset_is_refused(bound: PbBound)
    requires
        bound.offset matches Some(PbOffset::Datum(_)),
    ensures
        FrameBound::decode(bound) == Err::<FrameBound<usize>, DecodeError>(
            DecodeError::OffsetNotInteger,
        ),
{
}

} // verus!
