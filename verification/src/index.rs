//! Useful traits for structures that can provide different data or behavior depending on axes
use vstd::prelude::*;

use crate::axis::{Axis, SignedAxis};
use crate::direction::Direction;
use crate::direction_flags::DirectionFlags;

verus! {

/// A trait for any object that has inner components corresponding to euclidean 3D axes
pub trait AxisIndex {
    /// The item this object can provide
    type Item;

    /// The item corresponding to the X axis
    spec fn spec_axis_x(&self) -> Self::Item;

    /// The item corresponding to the Y axis
    spec fn spec_axis_y(&self) -> Self::Item;

    /// The item corresponding to the Z axis
    spec fn spec_axis_z(&self) -> Self::Item;

    /// Get the item corresponding to the X axis
    fn axis_x(&self) -> (r: Self::Item)
        ensures
            r == self.spec_axis_x(),
    ;

    /// Get the item corresponding to the Y axis
    fn axis_y(&self) -> (r: Self::Item)
        ensures
            r == self.spec_axis_y(),
    ;

    /// Get the item corresponding to the Z axis
    fn axis_z(&self) -> (r: Self::Item)
        ensures
            r == self.spec_axis_z(),
    ;

    /// Get an item corresponding to the provided axis.
    fn axis_index(&self, axis: Axis) -> (r: Self::Item)
        ensures
            r == match axis {
                Axis::X => self.spec_axis_x(),
                Axis::Y => self.spec_axis_y(),
                Axis::Z => self.spec_axis_z(),
            },
    {
        match axis {
            Axis::X => self.axis_x(),
            Axis::Y => self.axis_y(),
            Axis::Z => self.axis_z(),
        }
    }
}

/// A trait for any object that has inner components corresponding to euclidean 3D axes,
/// but whose outputs differ if a negative axis is requested.
pub trait SignedAxisIndex: AxisIndex {
    /// The item corresponding to the -X axis
    spec fn spec_axis_neg_x(&self) -> Self::Item;

    /// The item corresponding to the -Y axis
    spec fn spec_axis_neg_y(&self) -> Self::Item;

    /// The item corresponding to the -Z axis
    spec fn spec_axis_neg_z(&self) -> Self::Item;

    /// Get the item corresponding to the +X axis: the item of the X axis
    fn axis_pos_x(&self) -> (r: Self::Item)
        ensures
            r == self.spec_axis_x(),
    {
        self.axis_x()
    }

    /// Get the item corresponding to the +Y axis: the item of the Y axis
    fn axis_pos_y(&self) -> (r: Self::Item)
        ensures
            r == self.spec_axis_y(),
    {
        self.axis_y()
    }

    /// Get the item corresponding to the +Z axis: the item of the Z axis
    fn axis_pos_z(&self) -> (r: Self::Item)
        ensures
            r == self.spec_axis_z(),
    {
        self.axis_z()
    }

    /// Get the item corresponding to the -X axis
    fn axis_neg_x(&self) -> (r: Self::Item)
        ensures
            r == self.spec_axis_neg_x(),
    ;

    /// Get the item corresponding to the -Y axis
    fn axis_neg_y(&self) -> (r: Self::Item)
        ensures
            r == self.spec_axis_neg_y(),
    ;

    /// Get the item corresponding to the -Z axis
    fn axis_neg_z(&self) -> (r: Self::Item)
        ensures
            r == self.spec_axis_neg_z(),
    ;

    /// Get an item corresponding to the provided axis.
    fn signed_axis_index(&self, axis: SignedAxis) -> (r: Self::Item)
        ensures
            r == match axis {
                SignedAxis::XPos => self.spec_axis_x(),
                SignedAxis::YPos => self.spec_axis_y(),
                SignedAxis::ZPos => self.spec_axis_z(),
                SignedAxis::XNeg => self.spec_axis_neg_x(),
                SignedAxis::YNeg => self.spec_axis_neg_y(),
                SignedAxis::ZNeg => self.spec_axis_neg_z(),
            },
    {
        match axis {
            SignedAxis::XPos => self.axis_pos_x(),
            SignedAxis::YPos => self.axis_pos_y(),
            SignedAxis::ZPos => self.axis_pos_z(),
            SignedAxis::XNeg => self.axis_neg_x(),
            SignedAxis::YNeg => self.axis_neg_y(),
            SignedAxis::ZNeg => self.axis_neg_z(),
        }
    }
}

/// Objects that can be indexed with directions
pub trait DirectionIndex {
    /// The item to get
    type Item;

    /// The item corresponding to [`Direction::Left`]
    spec fn spec_direction_left(&self) -> Self::Item;

    /// The item corresponding to [`Direction::Right`]
    spec fn spec_direction_right(&self) -> Self::Item;

    /// The item corresponding to [`Direction::Down`]
    spec fn spec_direction_down(&self) -> Self::Item;

    /// The item corresponding to [`Direction::Up`]
    spec fn spec_direction_up(&self) -> Self::Item;

    /// The item corresponding to [`Direction::Front`]
    spec fn spec_direction_front(&self) -> Self::Item;

    /// The item corresponding to [`Direction::Back`]
    spec fn spec_direction_back(&self) -> Self::Item;

    /// Get the item corresponding to [`Direction::Left`]
    fn direction_left(&self) -> (r: Self::Item)
        ensures
            r == self.spec_direction_left(),
    ;

    /// Get the item corresponding to [`Direction::Right`]
    fn direction_right(&self) -> (r: Self::Item)
        ensures
            r == self.spec_direction_right(),
    ;

    /// Get the item corresponding to [`Direction::Down`]
    fn direction_down(&self) -> (r: Self::Item)
        ensures
            r == self.spec_direction_down(),
    ;

    /// Get the item corresponding to [`Direction::Up`]
    fn direction_up(&self) -> (r: Self::Item)
        ensures
            r == self.spec_direction_up(),
    ;

    /// Get the item corresponding to [`Direction::Front`]
    fn direction_front(&self) -> (r: Self::Item)
        ensures
            r == self.spec_direction_front(),
    ;

    /// Get the item corresponding to [`Direction::Back`]
    fn direction_back(&self) -> (r: Self::Item)
        ensures
            r == self.spec_direction_back(),
    ;

    /// Get the item corresponding to an arbitrary [`Direction`]
    fn direction(&self, direction: Direction) -> (r: Self::Item)
        ensures
            r == match direction {
                Direction::Back => self.spec_direction_back(),
                Direction::Down => self.spec_direction_down(),
                Direction::Front => self.spec_direction_front(),
                Direction::Left => self.spec_direction_left(),
                Direction::Right => self.spec_direction_right(),
                Direction::Up => self.spec_direction_up(),
            },
    {
        match direction {
            Direction::Back => self.direction_back(),
            Direction::Down => self.direction_down(),
            Direction::Front => self.direction_front(),
            Direction::Left => self.direction_left(),
            Direction::Right => self.direction_right(),
            Direction::Up => self.direction_up(),
        }
    }
}

/// Objects that can be indexed by multiple directions at a time!
pub trait CombinedDirectionIndex: DirectionIndex {
    /// Get the combined output of a flag set
    fn direction_flags(&self, flags: DirectionFlags) -> Self::Item;
}

} // verus!
