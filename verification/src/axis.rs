//! Signed and unsigned axes, and how signed axes map onto view directions.
use vstd::prelude::*;
use vstd::std_specs::ops::NegSpec;
use vstd::string::StringExecFns;

use crate::direction::Direction;
use crate::direction_flags::DirectionFlags;

verus! {

/// The `to` of the last pair among the first `n` whose `from` has representation `j`,
/// or the `to` of the first pair where there is none.
pub open spec fn spec_last_into(pairs: Seq<(SignedAxis, Direction)>, j: int, n: int) -> Direction
    decreases n,
{
    if n <= 0 {
        pairs[0].1
    } else if pairs[n - 1].0.spec_index() == j {
        pairs[n - 1].1
    } else {
        spec_last_into(pairs, j, n - 1)
    }
}

/// The `from` of the last pair among the first `n` whose `to` has representation `j`,
/// or the `from` of the first pair where there is none.
pub open spec fn spec_last_from(pairs: Seq<(SignedAxis, Direction)>, j: int, n: int) -> SignedAxis
    decreases n,
{
    if n <= 0 {
        pairs[0].0
    } else if pairs[n - 1].1.spec_index() == j {
        pairs[n - 1].0
    } else {
        spec_last_from(pairs, j, n - 1)
    }
}

/// The last pair wins: where no later pair shares the `from` of pair `i`, the table indexed
/// by axis gives that axis the `to` of pair `i`; likewise the other way round. So for a
/// pairing that is one to one, both tables give back every pair.
pub proof fn lemma_last_pair_wins(pairs: Seq<(SignedAxis, Direction)>, i: int, n: int)
    requires
        0 <= i < n <= pairs.len(),
    ensures
        (forall|k: int| i < k < n ==> #[trigger] pairs[k].0 != pairs[i].0) ==> spec_last_into(
            pairs,
            pairs[i].0.spec_index() as int,
            n,
        ) == pairs[i].1,
        (forall|k: int| i < k < n ==> #[trigger] pairs[k].1 != pairs[i].1) ==> spec_last_from(
            pairs,
            pairs[i].1.spec_index() as int,
            n,
        ) == pairs[i].0,
    decreases n,
{
    if n - 1 > i {
        lemma_last_pair_wins(pairs, i, n - 1);
        if forall|k: int| i < k < n ==> #[trigger] pairs[k].0 != pairs[i].0 {
            assert(pairs[n - 1].0 != pairs[i].0);
            lemma_signed_axis_index_injective(pairs[n - 1].0, pairs[i].0);
        }
        if forall|k: int| i < k < n ==> #[trigger] pairs[k].1 != pairs[i].1 {
            assert(pairs[n - 1].1 != pairs[i].1);
            crate::direction::lemma_direction_index_injective(pairs[n - 1].1, pairs[i].1);
        }
    }
}

/// The tables of a view: where the pairs list the signed axes in order, each with its
/// direction, and the view's two conversions are inverse, the table indexed by axis is
/// the conversion to directions and the table indexed by direction is its inverse.
proof fn lemma_view_tables(
    pairs: Seq<(SignedAxis, Direction)>,
    from: Seq<SignedAxis>,
    into: Seq<Direction>,
    to_dir: spec_fn(SignedAxis) -> Direction,
    from_dir: spec_fn(Direction) -> SignedAxis,
)
    requires
        pairs.len() == 6,
        forall|i: int|
            0 <= i < 6 ==> (#[trigger] pairs[i]).0.spec_index() == i && pairs[i].1 == to_dir(
                pairs[i].0,
            ),
        forall|a: SignedAxis| #[trigger] from_dir(to_dir(a)) == a,
        forall|d: Direction| #[trigger] to_dir(from_dir(d)) == d,
        forall|j: int| 0 <= j < 6 ==> #[trigger] from[j] == spec_last_from(pairs, j, 6),
        forall|j: int| 0 <= j < 6 ==> #[trigger] into[j] == spec_last_into(pairs, j, 6),
    ensures
        forall|a: SignedAxis| #[trigger] into[a.spec_index() as int] == to_dir(a),
        forall|d: Direction| #[trigger] from[d.spec_index() as int] == from_dir(d),
{
    assert forall|a: SignedAxis| #[trigger] into[a.spec_index() as int] == to_dir(a) by {
        let i = a.spec_index() as int;
        lemma_signed_axis_index_injective(pairs[i].0, a);
        assert forall|k: int| i < k < 6 implies #[trigger] pairs[k].0 != pairs[i].0 by {
            lemma_signed_axis_index_injective(pairs[k].0, pairs[i].0);
        }
        lemma_last_pair_wins(pairs, i, 6);
    }
    assert forall|d: Direction| #[trigger] from[d.spec_index() as int] == from_dir(d) by {
        let a = from_dir(d);
        let i = a.spec_index() as int;
        lemma_signed_axis_index_injective(pairs[i].0, a);
        assert forall|k: int| i < k < 6 implies #[trigger] pairs[k].1 != pairs[i].1 by {
            lemma_signed_axis_index_injective(pairs[k].0, pairs[i].0);
            if pairs[k].1 == pairs[i].1 {
                assert(from_dir(to_dir(pairs[k].0)) == from_dir(to_dir(pairs[i].0)));
            }
        }
        lemma_last_pair_wins(pairs, i, 6);
    }
}

/// Builds the two lookup tables of a pairing of signed axes with directions: the first
/// is indexed by direction and gives its axis, the second is indexed by axis and gives
/// its direction. Where several pairs share an index, the last one wins; an index that
/// no pair names keeps the first pair's entry.
fn map_from_signedaxis_into_direction<const N: usize>(pairs: [(SignedAxis, Direction); N]) -> (r: (
    [SignedAxis; N],
    [Direction; N],
))
    requires
        N >= 1,
        forall|i: int|
            0 <= i < N ==> (#[trigger] pairs@[i]).0.spec_index() < N && pairs@[i].1.spec_index()
                < N,
    ensures
        forall|j: int| 0 <= j < N ==> #[trigger] r.0@[j] == spec_last_from(pairs@, j, N as int),
        forall|j: int| 0 <= j < N ==> #[trigger] r.1@[j] == spec_last_into(pairs@, j, N as int),
        forall|i: int|
            0 <= i < N && (forall|k: int| i < k < N ==> pairs@[k].0 != #[trigger] pairs@[i].0)
                ==> r.1@[pairs@[i].0.spec_index() as int] == pairs@[i].1,
        forall|i: int|
            0 <= i < N && (forall|k: int| i < k < N ==> pairs@[k].1 != #[trigger] pairs@[i].1)
                ==> r.0@[pairs@[i].1.spec_index() as int] == pairs@[i].0,
{
    let mut from_arr = [pairs[0].0;N];
    let mut into_arr = [pairs[0].1;N];
    let mut i: usize = 0;

    while i != N
        invariant
            i <= N,
            N >= 1,
            forall|k: int|
                0 <= k < N ==> (#[trigger] pairs@[k]).0.spec_index() < N && pairs@[k].1.spec_index()
                    < N,
            forall|j: int|
                0 <= j < N ==> #[trigger] from_arr@[j] == spec_last_from(pairs@, j, i as int),
            forall|j: int|
                0 <= j < N ==> #[trigger] into_arr@[j] == spec_last_into(pairs@, j, i as int),
        decreases N - i,
    {
        let (from, to) = pairs[i];
        assert(pairs@[i as int] == (from, to));

        from_arr[to.repr() as usize] = from;
        into_arr[from.repr() as usize] = to;
        i += 1;
    }
    proof {
        assert forall|i: int| 0 <= i < N implies {
            &&& (forall|k: int| i < k < N ==> pairs@[k].0 != #[trigger] pairs@[i].0)
                ==> into_arr@[pairs@[i].0.spec_index() as int] == pairs@[i].1
            &&& (forall|k: int| i < k < N ==> pairs@[k].1 != #[trigger] pairs@[i].1)
                ==> from_arr@[pairs@[i].1.spec_index() as int] == pairs@[i].0
        } by {
            lemma_last_pair_wins(pairs@, i, N as int);
        }
    }

    (from_arr, into_arr)
}

/// A simple direction selection enum, designed for matching, selecting, indexing, etc.
/// For more complex 2D or 3D scenes, consider using a vector instead.
///
/// The numeric representation of each variant is its position in the declaration
/// order: `XPos` is 0, `ZNeg` is 5.
#[derive(Debug, Clone, Copy, PartialEq, Eq, Structural, PartialOrd, Ord, Hash)]
pub enum SignedAxis {
    /// +X
    XPos,
    /// +Y
    YPos,
    /// +Z
    ZPos,
    /// -X
    XNeg,
    /// -Y
    YNeg,
    /// -Z
    ZNeg,
}

impl SignedAxis {
    /// The number of variants
    pub const COUNT: usize = 6;

    /// An ordered array of all variants
    pub const VARIANT_ARRAY: [SignedAxis; 6] = [
        SignedAxis::XPos,
        SignedAxis::YPos,
        SignedAxis::ZPos,
        SignedAxis::XNeg,
        SignedAxis::YNeg,
        SignedAxis::ZNeg,
    ];

    /// All enum variants in order
    pub const VARIANT_NAMES: [&'static str; 6] = ["XPos", "YPos", "ZPos", "XNeg", "YNeg", "ZNeg"];

    /// An array of variants, each corresponding to its own "opposite", or "reverse".
    pub const VARIANTS_OPPOSITE: [SignedAxis; 6] = [
        SignedAxis::XNeg,
        SignedAxis::YNeg,
        SignedAxis::ZNeg,
        SignedAxis::XPos,
        SignedAxis::YPos,
        SignedAxis::ZPos,
    ];

    /// The numeric representation (the position in the declaration order).
    pub open spec fn spec_index(self) -> u8 {
        match self {
            SignedAxis::XPos => 0,
            SignedAxis::YPos => 1,
            SignedAxis::ZPos => 2,
            SignedAxis::XNeg => 3,
            SignedAxis::YNeg => 4,
            SignedAxis::ZNeg => 5,
        }
    }

    /// The same axis with the other sign.
    pub open spec fn spec_reverse(self) -> SignedAxis {
        match self {
            SignedAxis::XPos => SignedAxis::XNeg,
            SignedAxis::YPos => SignedAxis::YNeg,
            SignedAxis::ZPos => SignedAxis::ZNeg,
            SignedAxis::XNeg => SignedAxis::XPos,
            SignedAxis::YNeg => SignedAxis::YPos,
            SignedAxis::ZNeg => SignedAxis::ZPos,
        }
    }

    /// The axis without its sign.
    pub open spec fn spec_to_unsigned(self) -> Axis {
        match self {
            SignedAxis::XPos | SignedAxis::XNeg => Axis::X,
            SignedAxis::YPos | SignedAxis::YNeg => Axis::Y,
            SignedAxis::ZPos | SignedAxis::ZNeg => Axis::Z,
        }
    }

    /// Whether the axis points the positive way.
    pub open spec fn spec_is_positive(self) -> bool {
        match self {
            SignedAxis::XPos | SignedAxis::YPos | SignedAxis::ZPos => true,
            _ => false,
        }
    }

    /// The direction of this axis in a right-handed view facing -z.
    pub open spec fn spec_to_direction_rh(self) -> Direction {
        match self {
            SignedAxis::XPos => Direction::Right,
            SignedAxis::YPos => Direction::Up,
            SignedAxis::ZPos => Direction::Back,
            SignedAxis::XNeg => Direction::Left,
            SignedAxis::YNeg => Direction::Down,
            SignedAxis::ZNeg => Direction::Front,
        }
    }

    /// The direction of this axis in a left-handed view facing +z.
    pub open spec fn spec_to_direction_lh(self) -> Direction {
        match self {
            SignedAxis::XPos => Direction::Right,
            SignedAxis::YPos => Direction::Up,
            SignedAxis::ZPos => Direction::Front,
            SignedAxis::XNeg => Direction::Left,
            SignedAxis::YNeg => Direction::Down,
            SignedAxis::ZNeg => Direction::Back,
        }
    }

    /// The axis of a direction in a right-handed view facing -z.
    pub open spec fn spec_from_direction_rh(d: Direction) -> SignedAxis {
        match d {
            Direction::Right => SignedAxis::XPos,
            Direction::Up => SignedAxis::YPos,
            Direction::Back => SignedAxis::ZPos,
            Direction::Left => SignedAxis::XNeg,
            Direction::Down => SignedAxis::YNeg,
            Direction::Front => SignedAxis::ZNeg,
        }
    }

    /// The axis of a direction in a left-handed view facing +z.
    pub open spec fn spec_from_direction_lh(d: Direction) -> SignedAxis {
        match d {
            Direction::Right => SignedAxis::XPos,
            Direction::Up => SignedAxis::YPos,
            Direction::Front => SignedAxis::ZPos,
            Direction::Left => SignedAxis::XNeg,
            Direction::Down => SignedAxis::YNeg,
            Direction::Back => SignedAxis::ZNeg,
        }
    }

    /// The name of the variant.
    pub open spec fn spec_name(self) -> Seq<char> {
        match self {
            SignedAxis::XPos => "XPos"@,
            SignedAxis::YPos => "YPos"@,
            SignedAxis::ZPos => "ZPos"@,
            SignedAxis::XNeg => "XNeg"@,
            SignedAxis::YNeg => "YNeg"@,
            SignedAxis::ZNeg => "ZNeg"@,
        }
    }

    /// The numeric representation, as the index into the variant arrays.
    pub(crate) fn repr(self) -> (r: u8)
        ensures
            r == self.spec_index(),
    {
        match self {
            SignedAxis::XPos => 0,
            SignedAxis::YPos => 1,
            SignedAxis::ZPos => 2,
            SignedAxis::XNeg => 3,
            SignedAxis::YNeg => 4,
            SignedAxis::ZNeg => 5,
        }
    }

    /// Get the `SignedAxis` corresponding to the input.
    /// The input must be in range (below [`Self::COUNT`]).
    pub fn from_repr(n: u8) -> (r: Self)
        requires
            n < 6,
        ensures
            r.spec_index() == n,
    {
        Self::VARIANT_ARRAY[n as usize]
    }

    /// Get the `SignedAxis` corresponding to the input, or `None` if the input is out of range.
    pub fn try_from_repr(n: u8) -> (r: Option<Self>)
        ensures
            match r {
                Some(a) => n < 6 && a.spec_index() == n,
                None => n >= 6,
            },
    {
        let max_numeric = Self::VARIANT_ARRAY[Self::COUNT - 1].repr();
        if n > max_numeric {
            None
        } else {
            Some(Self::from_repr(n))
        }
    }

    /// Get the variant as a static string slice
    pub fn to_str(self) -> (r: &'static str)
        ensures
            r@ == self.spec_name(),
    {
        Self::VARIANT_NAMES[self.repr() as usize]
    }

    /// The name of the variant, as the value is displayed.
    pub fn to_string(self) -> (r: String)
        ensures
            r@ == self.spec_name(),
    {
        String::from_str(self.to_str())
    }

    /// Get the opposite of the provided axis
    pub fn reverse(self) -> (r: Self)
        ensures
            r == self.spec_reverse(),
    {
        Self::VARIANTS_OPPOSITE[self.repr() as usize]
    }

    /// Convert the axis into its unsigned counterpart.
    pub fn to_unsigned(self) -> (r: Axis)
        ensures
            r == self.spec_to_unsigned(),
    {
        Axis::from_repr(self.repr() % 3)
    }

    /// Get the absolute value of this axis: the positive axis of the same line.
    pub fn abs(self) -> (r: Self)
        ensures
            r == self.spec_to_unsigned().spec_cast_signed(),
    {
        self.to_unsigned().cast_signed()
    }

    /// Returns whether this axis is positive or not
    pub fn is_positive(self) -> (r: bool)
        ensures
            r == self.spec_is_positive(),
    {
        self.repr() < SignedAxis::XNeg.repr()
    }

    /// The inverse of [`is_positive`](Self::is_positive)
    pub fn is_negative(self) -> (r: bool)
        ensures
            r == !self.spec_is_positive(),
    {
        !self.is_positive()
    }

    /// The tables of the right-handed view facing -z.
    fn rh_view_maps_from_into() -> (r: ([SignedAxis; 6], [Direction; 6]))
        ensures
            forall|d: Direction| #[trigger] r.0@[d.spec_index() as int] == SignedAxis::spec_from_direction_rh(d),
            forall|a: SignedAxis| #[trigger] r.1@[a.spec_index() as int] == a.spec_to_direction_rh(),
    {
        let pairs = [
            (SignedAxis::XPos, Direction::Right),
            (SignedAxis::YPos, Direction::Up),
            (SignedAxis::ZPos, Direction::Back),
            (SignedAxis::XNeg, Direction::Left),
            (SignedAxis::YNeg, Direction::Down),
            (SignedAxis::ZNeg, Direction::Front),
        ];
        let r = map_from_signedaxis_into_direction(pairs);
        proof {
            lemma_view_tables(
                pairs@,
                r.0@,
                r.1@,
                |a: SignedAxis| a.spec_to_direction_rh(),
                |d: Direction| SignedAxis::spec_from_direction_rh(d),
            );
        }
        r
    }

    /// The tables of the left-handed view facing +z.
    fn lh_view_maps_from_into() -> (r: ([SignedAxis; 6], [Direction; 6]))
        ensures
            forall|d: Direction| #[trigger] r.0@[d.spec_index() as int] == SignedAxis::spec_from_direction_lh(d),
            forall|a: SignedAxis| #[trigger] r.1@[a.spec_index() as int] == a.spec_to_direction_lh(),
    {
        let pairs = [
            (SignedAxis::XPos, Direction::Right),
            (SignedAxis::YPos, Direction::Up),
            (SignedAxis::ZPos, Direction::Front),
            (SignedAxis::XNeg, Direction::Left),
            (SignedAxis::YNeg, Direction::Down),
            (SignedAxis::ZNeg, Direction::Back),
        ];
        let r = map_from_signedaxis_into_direction(pairs);
        proof {
            lemma_view_tables(
                pairs@,
                r.0@,
                r.1@,
                |a: SignedAxis| a.spec_to_direction_lh(),
                |d: Direction| SignedAxis::spec_from_direction_lh(d),
            );
        }
        r
    }

    /// Convert into a right-handed (facing -z) [`Direction`],
    /// for use with WGPU, Vulkan, DX12, or Metal
    pub fn to_direction_rh(self) -> (r: Direction)
        ensures
            r == self.spec_to_direction_rh(),
    {
        Self::rh_view_maps_from_into().1[self.repr() as usize]
    }

    /// Convert from a [`Direction`], assuming a right-handed (facing -z) coordinate system
    /// for use with WGPU, Vulkan, DX12, or Metal
    pub fn from_direction_rh(value: Direction) -> (r: Self)
        ensures
            r == SignedAxis::spec_from_direction_rh(value),
    {
        Self::rh_view_maps_from_into().0[value.repr() as usize]
    }

    /// Convert into a left-handed (facing +z) [`Direction`],
    /// for use with OpenGL
    pub fn to_direction_lh(self) -> (r: Direction)
        ensures
            r == self.spec_to_direction_lh(),
    {
        Self::lh_view_maps_from_into().1[self.repr() as usize]
    }

    /// Convert from a [`Direction`], assuming a left-handed (facing +z) coordinate system
    /// for use with OpenGL
    pub fn from_direction_lh(value: Direction) -> (r: Self)
        ensures
            r == SignedAxis::spec_from_direction_lh(value),
    {
        Self::lh_view_maps_from_into().0[value.repr() as usize]
    }
}

/// A simple direction selection enum, designed for matching, selecting, indexing, etc.
/// For more complex 2D or 3D scenes, consider using a vector instead.
///
/// The numeric representation of each variant matches that of its positive signed axis:
/// `X` is 0, `Z` is 2.
#[derive(Debug, Clone, Copy, PartialEq, Eq, Structural, PartialOrd, Ord, Hash)]
pub enum Axis {
    /// ±X
    X,
    /// ±Y
    Y,
    /// ±Z
    Z,
}

impl Axis {
    /// The number of variants
    pub const COUNT: usize = 3;

    /// An ordered array of all variants
    pub const VARIANT_ARRAY: [Axis; 3] = [Axis::X, Axis::Y, Axis::Z];

    /// All enum variants in order
    pub const VARIANT_NAMES: [&'static str; 3] = ["X", "Y", "Z"];

    /// The numeric representation (the position in the declaration order).
    pub open spec fn spec_index(self) -> u8 {
        match self {
            Axis::X => 0,
            Axis::Y => 1,
            Axis::Z => 2,
        }
    }

    /// The positive signed axis along this axis.
    pub open spec fn spec_cast_signed(self) -> SignedAxis {
        match self {
            Axis::X => SignedAxis::XPos,
            Axis::Y => SignedAxis::YPos,
            Axis::Z => SignedAxis::ZPos,
        }
    }

    /// The name of the variant.
    pub open spec fn spec_name(self) -> Seq<char> {
        match self {
            Axis::X => "X"@,
            Axis::Y => "Y"@,
            Axis::Z => "Z"@,
        }
    }

    /// The numeric representation, as the index into the variant arrays.
    pub(crate) fn repr(self) -> (r: u8)
        ensures
            r == self.spec_index(),
    {
        match self {
            Axis::X => 0,
            Axis::Y => 1,
            Axis::Z => 2,
        }
    }

    /// Get the `Axis` corresponding to the input.
    /// The input must be in range (below [`Self::COUNT`]).
    pub fn from_repr(n: u8) -> (r: Self)
        requires
            n < 3,
        ensures
            r.spec_index() == n,
    {
        Self::VARIANT_ARRAY[n as usize]
    }

    /// Get the `Axis` corresponding to the input, or `None` if the input is out of range.
    pub fn try_from_repr(n: u8) -> (r: Option<Self>)
        ensures
            match r {
                Some(a) => n < 3 && a.spec_index() == n,
                None => n >= 3,
            },
    {
        let max_numeric = Self::VARIANT_ARRAY[Self::COUNT - 1].repr();
        if n > max_numeric {
            None
        } else {
            Some(Self::from_repr(n))
        }
    }

    /// Get the variant as a static string slice
    pub fn to_str(self) -> (r: &'static str)
        ensures
            r@ == self.spec_name(),
    {
        Self::VARIANT_NAMES[self.repr() as usize]
    }

    /// The name of the variant, as the value is displayed.
    pub fn to_string(self) -> (r: String)
        ensures
            r@ == self.spec_name(),
    {
        String::from_str(self.to_str())
    }

    /// The directions along this axis.
    pub open spec fn spec_directions(self) -> Set<Direction> {
        Set::new(|d: Direction| d.spec_axis() == self)
    }

    /// The bits of the directions along this axis.
    pub open spec fn spec_mask_bits(self) -> u8 {
        match self {
            Axis::X => 0b010010,
            Axis::Y => 0b001001,
            Axis::Z => 0b100100,
        }
    }

    /// Get a [`DirectionFlags`] mask pertaining to this axis
    pub fn to_direction_flags_mask(self) -> (r: DirectionFlags)
        ensures
            r.spec_bits() == self.spec_mask_bits(),
            r@ == self.spec_directions(),
    {
        let r = match self {
            Axis::X => DirectionFlags::MASK_X(),
            Axis::Y => DirectionFlags::MASK_Y(),
            Axis::Z => DirectionFlags::MASK_Z(),
        };
        proof {
            assert(r@ =~= self.spec_directions());
        }
        r
    }

    /// Cast this axis into a [`SignedAxis`]
    pub fn cast_signed(self) -> (r: SignedAxis)
        ensures
            r == self.spec_cast_signed(),
    {
        SignedAxis::VARIANT_ARRAY[self.repr() as usize]
    }
}

impl core::ops::Neg for SignedAxis {
    type Output = Self;

    fn neg(self) -> (r: Self::Output) {
        self.reverse()
    }
}

impl vstd::std_specs::ops::NegSpecImpl for SignedAxis {
    open spec fn obeys_neg_spec() -> bool {
        true
    }

    open spec fn neg_req(self) -> bool {
        true
    }

    open spec fn neg_spec(self) -> Self::Output {
        self.spec_reverse()
    }
}

impl core::ops::Neg for Axis {
    type Output = SignedAxis;

    fn neg(self) -> (r: Self::Output) {
        self.cast_signed().reverse()
    }
}

impl vstd::std_specs::ops::NegSpecImpl for Axis {
    open spec fn obeys_neg_spec() -> bool {
        true
    }

    open spec fn neg_req(self) -> bool {
        true
    }

    open spec fn neg_spec(self) -> Self::Output {
        self.spec_cast_signed().spec_reverse()
    }
}

/// Reversing a signed axis twice gives it back; the reverse lies on the same axis,
/// with the other sign.
pub proof fn lemma_signed_axis_reverse(a: SignedAxis)
    ensures
        a.spec_reverse().spec_reverse() == a,
        a.spec_reverse() != a,
        a.spec_reverse().spec_to_unsigned() == a.spec_to_unsigned(),
        a.spec_reverse().spec_is_positive() == !a.spec_is_positive(),
{
}

/// The absolute value is the positive axis of the same line: it is positive, it keeps the
/// unsigned axis, it leaves positive axes alone and it does not see the sign.
pub proof fn lemma_signed_axis_abs(a: SignedAxis)
    ensures
        a.spec_to_unsigned().spec_cast_signed().spec_is_positive(),
        a.spec_to_unsigned().spec_cast_signed().spec_to_unsigned() == a.spec_to_unsigned(),
        a.spec_is_positive() <==> a.spec_to_unsigned().spec_cast_signed() == a,
        a.spec_reverse().spec_to_unsigned().spec_cast_signed() == a.spec_to_unsigned().spec_cast_signed(),
{
}

/// Casting an axis to a signed axis gives the positive one, which casts back to the same
/// axis; negating an axis gives the negative one.
pub proof fn lemma_axis_cast_signed(x: Axis)
    ensures
        x.spec_cast_signed().spec_is_positive(),
        x.spec_cast_signed().spec_to_unsigned() == x,
        !x.spec_cast_signed().spec_reverse().spec_is_positive(),
        x.spec_cast_signed().spec_reverse().spec_to_unsigned() == x,
        x.spec_cast_signed().spec_index() == x.spec_index(),
{
}

/// In either handedness, the conversions between signed axes and directions are inverse
/// bijections.
pub proof fn lemma_direction_conversions_inverse(a: SignedAxis, d: Direction)
    ensures
        SignedAxis::spec_from_direction_rh(a.spec_to_direction_rh()) == a,
        SignedAxis::spec_from_direction_rh(d).spec_to_direction_rh() == d,
        SignedAxis::spec_from_direction_lh(a.spec_to_direction_lh()) == a,
        SignedAxis::spec_from_direction_lh(d).spec_to_direction_lh() == d,
{
}

/// The conversions to directions respect opposites: the reverse axis goes to the reverse
/// direction, and the direction lies along the axis.
pub proof fn lemma_direction_conversions_reverse(a: SignedAxis)
    ensures
        a.spec_reverse().spec_to_direction_rh() == a.spec_to_direction_rh().spec_reverse(),
        a.spec_reverse().spec_to_direction_lh() == a.spec_to_direction_lh().spec_reverse(),
        a.spec_to_direction_rh().spec_axis() == a.spec_to_unsigned(),
        a.spec_to_direction_lh().spec_axis() == a.spec_to_unsigned(),
{
}

/// The two handednesses agree on X and Y and disagree on Z.
pub proof fn lemma_handedness(a: SignedAxis)
    ensures
        a.spec_to_unsigned() != Axis::Z ==> a.spec_to_direction_lh() == a.spec_to_direction_rh(),
        a.spec_to_unsigned() == Axis::Z ==> a.spec_to_direction_lh()
            == a.spec_to_direction_rh().spec_reverse(),
{
}

/// Distinct signed axes have distinct numeric representations.
pub proof fn lemma_signed_axis_index_injective(a: SignedAxis, b: SignedAxis)
    ensures
        a.spec_index() == b.spec_index() <==> a == b,
        a.spec_index() < 6,
{
}

/// Negating a signed axis gives the same axis with the other sign; negating twice gives it
/// back; negation is `reverse`.
pub proof fn lemma_signed_axis_neg(a: SignedAxis)
    ensures
        a.neg_req(),
        <SignedAxis as NegSpec>::obeys_neg_spec(),
        a.neg_spec() != a,
        a.neg_spec().spec_to_unsigned() == a.spec_to_unsigned(),
        a.neg_spec().spec_is_positive() == !a.spec_is_positive(),
        a.neg_spec().neg_spec() == a,
        a.neg_spec() == a.spec_reverse(),
{
}

/// Negating an unsigned axis gives the negative signed axis along it.
pub proof fn lemma_axis_neg(x: Axis)
    ensures
        x.neg_req(),
        <Axis as NegSpec>::obeys_neg_spec(),
        x.neg_spec().spec_to_unsigned() == x,
        !x.neg_spec().spec_is_positive(),
        x.neg_spec() == x.spec_cast_signed().spec_reverse(),
{
}

} // verus!
