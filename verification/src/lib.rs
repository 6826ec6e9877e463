//! Window-function frames: the bounds of a `ROWS BETWEEN ... AND ...` clause,
//! the order between them, the row counts a sliding window keeps, and the
//! messages that carry a frame from the planner to the workers.

pub mod bound;
pub mod call;
pub mod codec;
pub mod exclusion;
pub mod frame;
pub mod offset;
pub mod place;
pub mod text;
pub mod wire;

pub use bound::FrameBound;
pub use call::WindowFuncCall;
pub use exclusion::FrameExclusion;
pub use frame::Frame;
pub use frame::FrameBounds;
pub use wire::DecodeError;
pub use wire::PbBound;
pub use wire::PbBoundType;
pub use wire::PbExclusion;
pub use wire::PbOffset;
pub use wire::PbType;
pub use wire::PbWindowFrame;
pub use wire::PbWindowFunction;
pub use wire::WireField;
