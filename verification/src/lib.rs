//! Directions, signed and unsigned axes, direction flag sets and per-axis bundles,
//! with their behaviour stated and proved.
//!
//! The modules hold the types together with the spec functions that give their
//! meaning and the proof functions that state the laws they keep; the types
//! themselves are also re-exported at the crate root.

pub mod axis;
pub mod axis_set;
pub mod conversions;
pub mod direction;
pub mod direction_flags;
pub mod index;

pub use axis::{Axis, SignedAxis};
pub use axis_set::{SignedAxisSet, SignedAxisSetIter};
pub use direction::Direction;
pub use direction_flags::{DirectionFlags, DirectionFlagsIter};
pub use index::{AxisIndex, CombinedDirectionIndex, DirectionIndex, SignedAxisIndex};
