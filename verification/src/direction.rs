//! The six view-relative directions.
use vstd::prelude::*;
use vstd::std_specs::ops::NegSpec;
use vstd::string::StringExecFns;

use crate::axis::Axis;
use crate::direction_flags::{spec_dir_bit, DirectionFlags};

verus! {

/// A simple direction selection enum, designed for matching, selecting, indexing, etc.
/// For more complex 2D or 3D scenes, consider using a vector instead.
///
/// The numeric representation of each variant is its position in the declaration
/// order: `Up` is 0, `Back` is 5.
#[derive(Debug, Clone, Copy, PartialEq, Eq, Structural, PartialOrd, Ord, Hash)]
pub enum Direction {
    /// Numeric representation 0
    Up,
    /// Numeric representation 1
    Right,
    /// Numeric representation 2
    Front,
    /// Numeric representation 3
    Down,
    /// Numeric representation 4
    Left,
    /// Numeric representation 5
    Back,
}

impl Direction {
    /// The number of variants
    pub const COUNT: usize = 6;

    /// An ordered array of all variants
    pub const VARIANT_ARRAY: [Direction; 6] = [
        Direction::Up,
        Direction::Right,
        Direction::Front,
        Direction::Down,
        Direction::Left,
        Direction::Back,
    ];

    /// All enum variants in order
    pub const VARIANT_NAMES: [&'static str; 6] = ["Up", "Right", "Front", "Down", "Left", "Back"];

    /// An array of variants, each corresponding to its own "opposite", or "reverse".
    pub const VARIANTS_OPPOSITE: [Direction; 6] = [
        Direction::Down,
        Direction::Left,
        Direction::Back,
        Direction::Up,
        Direction::Right,
        Direction::Front,
    ];

    /// The numeric representation of a direction (its position in the declaration order).
    pub open spec fn spec_index(self) -> u8 {
        match self {
            Direction::Up => 0,
            Direction::Right => 1,
            Direction::Front => 2,
            Direction::Down => 3,
            Direction::Left => 4,
            Direction::Back => 5,
        }
    }

    /// The direction opposite to this one.
    pub open spec fn spec_reverse(self) -> Direction {
        match self {
            Direction::Up => Direction::Down,
            Direction::Right => Direction::Left,
            Direction::Front => Direction::Back,
            Direction::Down => Direction::Up,
            Direction::Left => Direction::Right,
            Direction::Back => Direction::Front,
        }
    }

    /// The axis this direction lies along.
    pub open spec fn spec_axis(self) -> Axis {
        match self {
            Direction::Up | Direction::Down => Axis::Y,
            Direction::Right | Direction::Left => Axis::X,
            Direction::Front | Direction::Back => Axis::Z,
        }
    }

    /// The name of the variant.
    pub open spec fn spec_name(self) -> Seq<char> {
        match self {
            Direction::Up => "Up"@,
            Direction::Right => "Right"@,
            Direction::Front => "Front"@,
            Direction::Down => "Down"@,
            Direction::Left => "Left"@,
            Direction::Back => "Back"@,
        }
    }

    /// The numeric representation, as the index into the variant arrays.
    pub(crate) fn repr(self) -> (r: u8)
        ensures
            r == self.spec_index(),
    {
        match self {
            Direction::Up => 0,
            Direction::Right => 1,
            Direction::Front => 2,
            Direction::Down => 3,
            Direction::Left => 4,
            Direction::Back => 5,
        }
    }

    /// Get the `Direction` corresponding to the input.
    /// The input must be in range (below [`Self::COUNT`]).
    pub fn from_repr(n: u8) -> (r: Self)
        requires
            n < 6,
        ensures
            r.spec_index() == n,
    {
        Self::VARIANT_ARRAY[n as usize]
    }

    /// Get the `Direction` corresponding to the input, or `None` if the input is out of range.
    pub fn try_from_repr(n: u8) -> (r: Option<Self>)
        ensures
            match r {
                Some(d) => n < 6 && d.spec_index() == n,
                None => n >= 6,
            },
    {
        let max_numeric = Self::VARIANT_ARRAY[Self::COUNT - 1].repr();
        if n > max_numeric {
            None
        } else {
            Some(Self::from_repr(n))
        }
    }

    /// Get the variant as a static string slice
    pub fn to_str(self) -> (r: &'static str)
        ensures
            r@ == self.spec_name(),
    {
        Self::VARIANT_NAMES[self.repr() as usize]
    }

    /// The name of the variant, as the value is displayed.
    pub fn to_string(self) -> (r: String)
        ensures
            r@ == self.spec_name(),
    {
        String::from_str(self.to_str())
    }

    /// Get the opposite of the provided `Direction`
    pub fn reverse(self) -> (r: Self)
        ensures
            r == self.spec_reverse(),
    {
        Self::VARIANTS_OPPOSITE[self.repr() as usize]
    }

    /// Convert the provided direction into a flagset holding this direction alone.
    pub fn to_flags(self) -> (r: DirectionFlags)
        ensures
            r.spec_bits() == spec_dir_bit(self),
            r@ == set![self],
    {
        DirectionFlags::new(self)
    }
}

/// Reversing a direction twice gives it back, and no direction is its own reverse.
pub proof fn lemma_direction_reverse_involutive(d: Direction)
    ensures
        d.spec_reverse().spec_reverse() == d,
        d.spec_reverse() != d,
        d.spec_reverse().spec_axis() == d.spec_axis(),
{
}

/// Distinct directions have distinct numeric representations.
pub proof fn lemma_direction_index_injective(a: Direction, b: Direction)
    ensures
        a.spec_index() == b.spec_index() <==> a == b,
        a.spec_index() < 6,
{
}

impl core::ops::Neg for Direction {
    type Output = Self;

    fn neg(self) -> (r: Self::Output) {
        self.reverse()
    }
}

impl vstd::std_specs::ops::NegSpecImpl for Direction {
    open spec fn obeys_neg_spec() -> bool {
        true
    }

    open spec fn neg_req(self) -> bool {
        true
    }

    open spec fn neg_spec(self) -> Self::Output {
        self.spec_reverse()
    }
}

/// Negating a direction gives its opposite: the other direction on the same axis. Negating
/// twice gives the direction back, and negation is `reverse`.
pub proof fn lemma_direction_neg(d: Direction)
    ensures
        d.neg_req(),
        <Direction as NegSpec>::obeys_neg_spec(),
        d.neg_spec() != d,
        d.neg_spec().spec_axis() == d.spec_axis(),
        forall|e: Direction| e.spec_axis() == d.spec_axis() ==> e == d || e == d.neg_spec(),
        d.neg_spec().neg_spec() == d,
        d.neg_spec() == d.spec_reverse(),
{
}

} // verus!
