//! Conversions of the direction and axis enums into their numeric representation.
use vstd::prelude::*;
use vstd::std_specs::convert::FromSpec;

use crate::axis::{Axis, SignedAxis};
use crate::direction::Direction;

verus! {

impl core::convert::From<Direction> for u8 {
    /// The numeric representation.
    fn from(value: Direction) -> (r: u8) {
        value.repr()
    }
}

impl vstd::std_specs::convert::FromSpecImpl<Direction> for u8 {
    open spec fn obeys_from_spec() -> bool {
        true
    }

    open spec fn from_spec(v: Direction) -> u8 {
        v.spec_index()
    }
}

impl core::convert::From<Direction> for i8 {
    /// The numeric representation.
    fn from(value: Direction) -> (r: i8) {
        value.repr() as i8
    }
}

impl vstd::std_specs::convert::FromSpecImpl<Direction> for i8 {
    open spec fn obeys_from_spec() -> bool {
        true
    }

    open spec fn from_spec(v: Direction) -> i8 {
        v.spec_index() as i8
    }
}

impl core::convert::From<Direction> for u16 {
    /// The numeric representation.
    fn from(value: Direction) -> (r: u16) {
        value.repr() as u16
    }
}

impl vstd::std_specs::convert::FromSpecImpl<Direction> for u16 {
    open spec fn obeys_from_spec() -> bool {
        true
    }

    open spec fn from_spec(v: Direction) -> u16 {
        v.spec_index() as u16
    }
}

impl core::convert::From<Direction> for i16 {
    /// The numeric representation.
    fn from(value: Direction) -> (r: i16) {
        value.repr() as i16
    }
}

impl vstd::std_specs::convert::FromSpecImpl<Direction> for i16 {
    open spec fn obeys_from_spec() -> bool {
        true
    }

    open spec fn from_spec(v: Direction) -> i16 {
        v.spec_index() as i16
    }
}

impl core::convert::From<Direction> for u32 {
    /// The numeric representation.
    fn from(value: Direction) -> (r: u32) {
        value.repr() as u32
    }
}

impl vstd::std_specs::convert::FromSpecImpl<Direction> for u32 {
    open spec fn obeys_from_spec() -> bool {
        true
    }

    open spec fn from_spec(v: Direction) -> u32 {
        v.spec_index() as u32
    }
}

impl core::convert::From<Direction> for i32 {
    /// The numeric representation.
    fn from(value: Direction) -> (r: i32) {
        value.repr() as i32
    }
}

impl vstd::std_specs::convert::FromSpecImpl<Direction> for i32 {
    open spec fn obeys_from_spec() -> bool {
        true
    }

    open spec fn from_spec(v: Direction) -> i32 {
        v.spec_index() as i32
    }
}

impl core::convert::From<Direction> for u64 {
    /// The numeric representation.
    fn from(value: Direction) -> (r: u64) {
        value.repr() as u64
    }
}

impl vstd::std_specs::convert::FromSpecImpl<Direction> for u64 {
    open spec fn obeys_from_spec() -> bool {
        true
    }

    open spec fn from_spec(v: Direction) -> u64 {
        v.spec_index() as u64
    }
}

impl core::convert::From<Direction> for i64 {
    /// The numeric representation.
    fn from(value: Direction) -> (r: i64) {
        value.repr() as i64
    }
}

impl vstd::std_specs::convert::FromSpecImpl<Direction> for i64 {
    open spec fn obeys_from_spec() -> bool {
        true
    }

    open spec fn from_spec(v: Direction) -> i64 {
        v.spec_index() as i64
    }
}

impl core::convert::From<Direction> for u128 {
    /// The numeric representation.
    fn from(value: Direction) -> (r: u128) {
        value.repr() as u128
    }
}

impl vstd::std_specs::convert::FromSpecImpl<Direction> for u128 {
    open spec fn obeys_from_spec() -> bool {
        true
    }

    open spec fn from_spec(v: Direction) -> u128 {
        v.spec_index() as u128
    }
}

impl core::convert::From<Direction> for i128 {
    /// The numeric representation.
    fn from(value: Direction) -> (r: i128) {
        value.repr() as i128
    }
}

impl vstd::std_specs::convert::FromSpecImpl<Direction> for i128 {
    open spec fn obeys_from_spec() -> bool {
        true
    }

    open spec fn from_spec(v: Direction) -> i128 {
        v.spec_index() as i128
    }
}

impl core::convert::From<Direction> for usize {
    /// The numeric representation.
    fn from(value: Direction) -> (r: usize) {
        value.repr() as usize
    }
}

impl vstd::std_specs::convert::FromSpecImpl<Direction> for usize {
    open spec fn obeys_from_spec() -> bool {
        true
    }

    open spec fn from_spec(v: Direction) -> usize {
        v.spec_index() as usize
    }
}

impl core::convert::From<Direction> for isize {
    /// The numeric representation.
    fn from(value: Direction) -> (r: isize) {
        value.repr() as isize
    }
}

impl vstd::std_specs::convert::FromSpecImpl<Direction> for isize {
    open spec fn obeys_from_spec() -> bool {
        true
    }

    open spec fn from_spec(v: Direction) -> isize {
        v.spec_index() as isize
    }
}

impl core::convert::From<SignedAxis> for u8 {
    /// The numeric representation.
    fn from(value: SignedAxis) -> (r: u8) {
        value.repr()
    }
}

impl vstd::std_specs::convert::FromSpecImpl<SignedAxis> for u8 {
    open spec fn obeys_from_spec() -> bool {
        true
    }

    open spec fn from_spec(v: SignedAxis) -> u8 {
        v.spec_index()
    }
}

impl core::convert::From<SignedAxis> for i8 {
    /// The numeric representation.
    fn from(value: SignedAxis) -> (r: i8) {
        value.repr() as i8
    }
}

impl vstd::std_specs::convert::FromSpecImpl<SignedAxis> for i8 {
    open spec fn obeys_from_spec() -> bool {
        true
    }

    open spec fn from_spec(v: SignedAxis) -> i8 {
        v.spec_index() as i8
    }
}

impl core::convert::From<SignedAxis> for u16 {
    /// The numeric representation.
    fn from(value: SignedAxis) -> (r: u16) {
        value.repr() as u16
    }
}

impl vstd::std_specs::convert::FromSpecImpl<SignedAxis> for u16 {
    open spec fn obeys_from_spec() -> bool {
        true
    }

    open spec fn from_spec(v: SignedAxis) -> u16 {
        v.spec_index() as u16
    }
}

impl core::convert::From<SignedAxis> for i16 {
    /// The numeric representation.
    fn from(value: SignedAxis) -> (r: i16) {
        value.repr() as i16
    }
}

impl vstd::std_specs::convert::FromSpecImpl<SignedAxis> for i16 {
    open spec fn obeys_from_spec() -> bool {
        true
    }

    open spec fn from_spec(v: SignedAxis) -> i16 {
        v.spec_index() as i16
    }
}

impl core::convert::From<SignedAxis> for u32 {
    /// The numeric representation.
    fn from(value: SignedAxis) -> (r: u32) {
        value.repr() as u32
    }
}

impl vstd::std_specs::convert::FromSpecImpl<SignedAxis> for u32 {
    open spec fn obeys_from_spec() -> bool {
        true
    }

    open spec fn from_spec(v: SignedAxis) -> u32 {
        v.spec_index() as u32
    }
}

impl core::convert::From<SignedAxis> for i32 {
    /// The numeric representation.
    fn from(value: SignedAxis) -> (r: i32) {
        value.repr() as i32
    }
}

impl vstd::std_specs::convert::FromSpecImpl<SignedAxis> for i32 {
    open spec fn obeys_from_spec() -> bool {
        true
    }

    open spec fn from_spec(v: SignedAxis) -> i32 {
        v.spec_index() as i32
    }
}

impl core::convert::From<SignedAxis> for u64 {
    /// The numeric representation.
    fn from(value: SignedAxis) -> (r: u64) {
        value.repr() as u64
    }
}

impl vstd::std_specs::convert::FromSpecImpl<SignedAxis> for u64 {
    open spec fn obeys_from_spec() -> bool {
        true
    }

    open spec fn from_spec(v: SignedAxis) -> u64 {
        v.spec_index() as u64
    }
}

impl core::convert::From<SignedAxis> for i64 {
    /// The numeric representation.
    fn from(value: SignedAxis) -> (r: i64) {
        value.repr() as i64
    }
}

impl vstd::std_specs::convert::FromSpecImpl<SignedAxis> for i64 {
    open spec fn obeys_from_spec() -> bool {
        true
    }

    open spec fn from_spec(v: SignedAxis) -> i64 {
        v.spec_index() as i64
    }
}

impl core::convert::From<SignedAxis> for u128 {
    /// The numeric representation.
    fn from(value: SignedAxis) -> (r: u128) {
        value.repr() as u128
    }
}

impl vstd::std_specs::convert::FromSpecImpl<SignedAxis> for u128 {
    open spec fn obeys_from_spec() -> bool {
        true
    }

    open spec fn from_spec(v: SignedAxis) -> u128 {
        v.spec_index() as u128
    }
}

impl core::convert::From<SignedAxis> for i128 {
    /// The numeric representation.
    fn from(value: SignedAxis) -> (r: i128) {
        value.repr() as i128
    }
}

impl vstd::std_specs::convert::FromSpecImpl<SignedAxis> for i128 {
    open spec fn obeys_from_spec() -> bool {
        true
    }

    open spec fn from_spec(v: SignedAxis) -> i128 {
        v.spec_index() as i128
    }
}

impl core::convert::From<SignedAxis> for usize {
    /// The numeric representation.
    fn from(value: SignedAxis) -> (r: usize) {
        value.repr() as usize
    }
}

impl vstd::std_specs::convert::FromSpecImpl<SignedAxis> for usize {
    open spec fn obeys_from_spec() -> bool {
        true
    }

    open spec fn from_spec(v: SignedAxis) -> usize {
        v.spec_index() as usize
    }
}

impl core::convert::From<SignedAxis> for isize {
    /// The numeric representation.
    fn from(value: SignedAxis) -> (r: isize) {
        value.repr() as isize
    }
}

impl vstd::std_specs::convert::FromSpecImpl<SignedAxis> for isize {
    open spec fn obeys_from_spec() -> bool {
        true
    }

    open spec fn from_spec(v: SignedAxis) -> isize {
        v.spec_index() as isize
    }
}

impl core::convert::From<Axis> for u8 {
    /// The numeric representation.
    fn from(value: Axis) -> (r: u8) {
        value.repr()
    }
}

impl vstd::std_specs::convert::FromSpecImpl<Axis> for u8 {
    open spec fn obeys_from_spec() -> bool {
        true
    }

    open spec fn from_spec(v: Axis) -> u8 {
        v.spec_index()
    }
}

impl core::convert::From<Axis> for i8 {
    /// The numeric representation.
    fn from(value: Axis) -> (r: i8) {
        value.repr() as i8
    }
}

impl vstd::std_specs::convert::FromSpecImpl<Axis> for i8 {
    open spec fn obeys_from_spec() -> bool {
        true
    }

    open spec fn from_spec(v: Axis) -> i8 {
        v.spec_index() as i8
    }
}

impl core::convert::From<Axis> for u16 {
    /// The numeric representation.
    fn from(value: Axis) -> (r: u16) {
        value.repr() as u16
    }
}

impl vstd::std_specs::convert::FromSpecImpl<Axis> for u16 {
    open spec fn obeys_from_spec() -> bool {
        true
    }

    open spec fn from_spec(v: Axis) -> u16 {
        v.spec_index() as u16
    }
}

impl core::convert::From<Axis> for i16 {
    /// The numeric representation.
    fn from(value: Axis) -> (r: i16) {
        value.repr() as i16
    }
}

impl vstd::std_specs::convert::FromSpecImpl<Axis> for i16 {
    open spec fn obeys_from_spec() -> bool {
        true
    }

    open spec fn from_spec(v: Axis) -> i16 {
        v.spec_index() as i16
    }
}

impl core::convert::From<Axis> for u32 {
    /// The numeric representation.
    fn from(value: Axis) -> (r: u32) {
        value.repr() as u32
    }
}

impl vstd::std_specs::convert::FromSpecImpl<Axis> for u32 {
    open spec fn obeys_from_spec() -> bool {
        true
    }

    open spec fn from_spec(v: Axis) -> u32 {
        v.spec_index() as u32
    }
}

impl core::convert::From<Axis> for i32 {
    /// The numeric representation.
    fn from(value: Axis) -> (r: i32) {
        value.repr() as i32
    }
}

impl vstd::std_specs::convert::FromSpecImpl<Axis> for i32 {
    open spec fn obeys_from_spec() -> bool {
        true
    }

    open spec fn from_spec(v: Axis) -> i32 {
        v.spec_index() as i32
    }
}

impl core::convert::From<Axis> for u64 {
    /// The numeric representation.
    fn from(value: Axis) -> (r: u64) {
        value.repr() as u64
    }
}

impl vstd::std_specs::convert::FromSpecImpl<Axis> for u64 {
    open spec fn obeys_from_spec() -> bool {
        true
    }

    open spec fn from_spec(v: Axis) -> u64 {
        v.spec_index() as u64
    }
}

impl core::convert::From<Axis> for i64 {
    /// The numeric representation.
    fn from(value: Axis) -> (r: i64) {
        value.repr() as i64
    }
}

impl vstd::std_specs::convert::FromSpecImpl<Axis> for i64 {
    open spec fn obeys_from_spec() -> bool {
        true
    }

    open spec fn from_spec(v: Axis) -> i64 {
        v.spec_index() as i64
    }
}

impl core::convert::From<Axis> for u128 {
    /// The numeric representation.
    fn from(value: Axis) -> (r: u128) {
        value.repr() as u128
    }
}

impl vstd::std_specs::convert::FromSpecImpl<Axis> for u128 {
    open spec fn obeys_from_spec() -> bool {
        true
    }

    open spec fn from_spec(v: Axis) -> u128 {
        v.spec_index() as u128
    }
}

impl core::convert::From<Axis> for i128 {
    /// The numeric representation.
    fn from(value: Axis) -> (r: i128) {
        value.repr() as i128
    }
}

impl vstd::std_specs::convert::FromSpecImpl<Axis> for i128 {
    open spec fn obeys_from_spec() -> bool {
        true
    }

    open spec fn from_spec(v: Axis) -> i128 {
        v.spec_index() as i128
    }
}

impl core::convert::From<Axis> for usize {
    /// The numeric representation.
    fn from(value: Axis) -> (r: usize) {
        value.repr() as usize
    }
}

impl vstd::std_specs::convert::FromSpecImpl<Axis> for usize {
    open spec fn obeys_from_spec() -> bool {
        true
    }

    open spec fn from_spec(v: Axis) -> usize {
        v.spec_index() as usize
    }
}

impl core::convert::From<Axis> for isize {
    /// The numeric representation.
    fn from(value: Axis) -> (r: isize) {
        value.repr() as isize
    }
}

impl vstd::std_specs::convert::FromSpecImpl<Axis> for isize {
    open spec fn obeys_from_spec() -> bool {
        true
    }

    open spec fn from_spec(v: Axis) -> isize {
        v.spec_index() as isize
    }
}

/// Every integer conversion of a `Direction` gives its numeric representation.
pub proof fn lemma_direction_conversions(v: Direction)
    ensures
        <u8 as FromSpec<Direction>>::from_spec(v) as int == v.spec_index() as int,
        <i8 as FromSpec<Direction>>::from_spec(v) as int == v.spec_index() as int,
        <u16 as FromSpec<Direction>>::from_spec(v) as int == v.spec_index() as int,
        <i16 as FromSpec<Direction>>::from_spec(v) as int == v.spec_index() as int,
        <u32 as FromSpec<Direction>>::from_spec(v) as int == v.spec_index() as int,
        <i32 as FromSpec<Direction>>::from_spec(v) as int == v.spec_index() as int,
        <u64 as FromSpec<Direction>>::from_spec(v) as int == v.spec_index() as int,
        <i64 as FromSpec<Direction>>::from_spec(v) as int == v.spec_index() as int,
        <u128 as FromSpec<Direction>>::from_spec(v) as int == v.spec_index() as int,
        <i128 as FromSpec<Direction>>::from_spec(v) as int == v.spec_index() as int,
        <usize as FromSpec<Direction>>::from_spec(v) as int == v.spec_index() as int,
        <isize as FromSpec<Direction>>::from_spec(v) as int == v.spec_index() as int,
{
}

/// Every integer conversion of a `SignedAxis` gives its numeric representation.
pub proof fn lemma_signedaxis_conversions(v: SignedAxis)
    ensures
        <u8 as FromSpec<SignedAxis>>::from_spec(v) as int == v.spec_index() as int,
        <i8 as FromSpec<SignedAxis>>::from_spec(v) as int == v.spec_index() as int,
        <u16 as FromSpec<SignedAxis>>::from_spec(v) as int == v.spec_index() as int,
        <i16 as FromSpec<SignedAxis>>::from_spec(v) as int == v.spec_index() as int,
        <u32 as FromSpec<SignedAxis>>::from_spec(v) as int == v.spec_index() as int,
        <i32 as FromSpec<SignedAxis>>::from_spec(v) as int == v.spec_index() as int,
        <u64 as FromSpec<SignedAxis>>::from_spec(v) as int == v.spec_index() as int,
        <i64 as FromSpec<SignedAxis>>::from_spec(v) as int == v.spec_index() as int,
        <u128 as FromSpec<SignedAxis>>::from_spec(v) as int == v.spec_index() as int,
        <i128 as FromSpec<SignedAxis>>::from_spec(v) as int == v.spec_index() as int,
        <usize as FromSpec<SignedAxis>>::from_spec(v) as int == v.spec_index() as int,
        <isize as FromSpec<SignedAxis>>::from_spec(v) as int == v.spec_index() as int,
{
}

/// Every integer conversion of a `Axis` gives its numeric representation.
pub proof fn lemma_axis_conversions(v: Axis)
    ensures
        <u8 as FromSpec<Axis>>::from_spec(v) as int == v.spec_index() as int,
        <i8 as FromSpec<Axis>>::from_spec(v) as int == v.spec_index() as int,
        <u16 as FromSpec<Axis>>::from_spec(v) as int == v.spec_index() as int,
        <i16 as FromSpec<Axis>>::from_spec(v) as int == v.spec_index() as int,
        <u32 as FromSpec<Axis>>::from_spec(v) as int == v.spec_index() as int,
        <i32 as FromSpec<Axis>>::from_spec(v) as int == v.spec_index() as int,
        <u64 as FromSpec<Axis>>::from_spec(v) as int == v.spec_index() as int,
        <i64 as FromSpec<Axis>>::from_spec(v) as int == v.spec_index() as int,
        <u128 as FromSpec<Axis>>::from_spec(v) as int == v.spec_index() as int,
        <i128 as FromSpec<Axis>>::from_spec(v) as int == v.spec_index() as int,
        <usize as FromSpec<Axis>>::from_spec(v) as int == v.spec_index() as int,
        <isize as FromSpec<Axis>>::from_spec(v) as int == v.spec_index() as int,
{
}

} // verus!
