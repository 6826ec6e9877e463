//! A window function call: what is computed, over which arguments, and over
//! which frame.

use crate::frame::Frame;
use crate::wire::DecodeError;
use crate::wire::PbWindowFunction;
use crate::wire::WireField;
use vstd::prelude::*;

verus! {

/// One window function call of a query. The kind `K`, the arguments `A` and
/// the return type `R` are resolved elsewhere; a call holds them and hands
/// them on.
#[derive(Debug, Clone)]
pub struct WindowFuncCall<K, A, R> {
    pub kind: K,
    pub args: A,
    pub return_type: R,
    pub frame: Frame,
}

impl<K, A, R> WindowFuncCall<K, A, R> {
    /// What a call on the wire reads as. Kind, arguments, return type and
    /// frame are looked at in this order; each has to be there, the frame has
    /// to be readable, and the first that fails decides the error.
    pub open spec fn decode(call: PbWindowFunction<K, A, R>) -> Result<Self, DecodeError> {
        match call.kind {
            None => Err(DecodeError::FieldNotFound(WireField::Kind)),
            Some(kind) => match call.args {
                None => Err(DecodeError::FieldNotFound(WireField::Args)),
                Some(args) => match call.return_type {
                    None => Err(DecodeError::FieldNotFound(WireField::ReturnType)),
                    Some(return_type) => match call.frame {
                        None => Err(DecodeError::FieldNotFound(WireField::Frame)),
                        Some(frame) => match Frame::decode(frame) {
                            Err(e) => Err(e),
                            Ok(frame) => Ok(WindowFuncCall { kind, args, return_type, frame }),
                        },
                    },
                },
            },
        }
    }

    /// Reads a call from the wire, taking kind, arguments and return type out
    /// of the message as they are.
    pub fn from_protobuf(call: PbWindowFunction<K, A, R>) -> (r: Result<Self, DecodeError>)
        ensures
            r == Self::decode(call),
    {
        let kind = match call.kind {
            None => {
                return Err(DecodeError::FieldNotFound(WireField::Kind));
            },
            Some(kind) => kind,
        };
        let args = match call.args {
            None => {
                return Err(DecodeError::FieldNotFound(WireField::Args));
            },
            Some(args) => args,
        };
        let return_type = match call.return_type {
            None => {
                return Err(DecodeError::FieldNotFound(WireField::ReturnType));
            },
            Some(return_type) => return_type,
        };
        let frame = match &call.frame {
            None => {
                return Err(DecodeError::FieldNotFound(WireField::Frame));
            },
            Some(frame) => match Frame::from_protobuf(frame) {
                Err(e) => {
                    return Err(e);
                },
                Ok(frame) => frame,
            },
        };
        Ok(WindowFuncCall { kind, args, return_type, frame })
    }
}

/// A call is read only with a frame that can be read: one whose frame is
/// unspecified, reserved or incomplete anywhere is refused, whatever else the
/// call holds.
pub proof fn lemma_call_with_unreadable_frame_is_refused<K, A, R>(call: PbWindowFunction<K, A, R>)
    requires
        call.frame matches Some(frame) && Frame::decode(frame) is Err,
    ensures
        WindowFuncCall::decode(call) is Err,
{
}

/// A call that is read holds what the message held: its kind, its arguments
/// and its return type as they were, and the frame that the message's frame
/// reads as.
pub proof fn lemma_read_call_holds_the_message<K, A, R>(call: PbWindowFunction<K, A, R>)
    requires
        WindowFuncCall::decode(call) is Ok,
    ensures
        call.kind == Some(WindowFuncCall::decode(call)->Ok_0.kind),
        call.args == Some(WindowFuncCall::decode(call)->Ok_0.args),
        call.return_type == Some(WindowFuncCall::decode(call)->Ok_0.return_type),
        call.frame is Some,
        Frame::decode(call.frame->0) == Ok::<Frame, DecodeError>(
            WindowFuncCall::decode(call)->Ok_0.frame,
        ),
{
}

} // verus!
