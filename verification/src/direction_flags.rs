//! A set of directions held in the bits of a single byte.
use vstd::prelude::*;
use vstd::std_specs::convert::FromSpec;
use vstd::std_specs::ops::{BitAndSpec, BitOrSpec, BitXorSpec, NotSpec, SubSpec};
use vstd::string::StringExecFns;

use crate::axis::{Axis, SignedAxis};
use crate::direction::Direction;

verus! {

/// The bit that stands for a direction: bit `n` for the direction whose numeric
/// representation is `n`.
pub open spec fn spec_dir_bit(d: Direction) -> u8 {
    match d {
        Direction::Up => 1,
        Direction::Right => 2,
        Direction::Front => 4,
        Direction::Down => 8,
        Direction::Left => 16,
        Direction::Back => 32,
    }
}

/// Distinct directions have distinct bits, and each is a direction bit.
pub proof fn lemma_dir_bit_injective(a: Direction, b: Direction)
    ensures
        spec_dir_bit(a) == spec_dir_bit(b) <==> a == b,
        is_dir_bit(spec_dir_bit(a)),
{
}

/// Every set of directions is finite, with at most six members.
pub proof fn lemma_direction_set_finite(s: Set<Direction>)
    ensures
        s.finite(),
        s.len() <= 6,
{
    let all = set![
        Direction::Up,
        Direction::Right,
        Direction::Front,
        Direction::Down,
        Direction::Left,
        Direction::Back,
    ];
    assert(all.len() == 6);
    assert forall|d: Direction| s.contains(d) implies all.contains(d) by {
        match d {
            Direction::Up => {},
            Direction::Right => {},
            Direction::Front => {},
            Direction::Down => {},
            Direction::Left => {},
            Direction::Back => {},
        }
    }
    vstd::set_lib::lemma_len_subset(s, all);
}

/// The upper-case hexadecimal digit for a value below 16.
pub open spec fn spec_hex_digit(n: u8) -> char {
    if n < 10 {
        (48 + n) as char
    } else {
        (55 + n) as char
    }
}

/// Whether `m` is the bit of some direction.
pub open spec fn is_dir_bit(m: u8) -> bool {
    m == 1 || m == 2 || m == 4 || m == 8 || m == 16 || m == 32
}

/// The bits that belong to no direction.
pub open spec fn unknown_mask() -> u8 {
    0xC0
}

/// The bits that belong to some direction.
pub open spec fn known_mask() -> u8 {
    0x3F
}

/// The bit for a direction is `1 << n`, `n` being its numeric representation.
proof fn lemma_shift_one(i: u8)
    by (bit_vector)
    requires
        i < 6,
    ensures
        i == 0 ==> 1u8 << i == 1u8,
        i == 1 ==> 1u8 << i == 2u8,
        i == 2 ==> 1u8 << i == 4u8,
        i == 3 ==> 1u8 << i == 8u8,
        i == 4 ==> 1u8 << i == 16u8,
        i == 5 ==> 1u8 << i == 32u8,
{
}

/// How the bitwise operations act on the bit of one direction.
proof fn lemma_single_bit_ops(a: u8, b: u8, m: u8)
    by (bit_vector)
    requires
        m == 1u8 || m == 2u8 || m == 4u8 || m == 8u8 || m == 16u8 || m == 32u8,
    ensures
        ((a | b) & m != 0) <==> (a & m != 0 || b & m != 0),
        ((a & b) & m != 0) <==> (a & m != 0 && b & m != 0),
        ((a ^ b) & m != 0) <==> ((a & m != 0) != (b & m != 0)),
        ((a & !b) & m != 0) <==> (a & m != 0 && b & m == 0),
        ((!a & 0x3Fu8) & m != 0) <==> (a & m == 0),
        ((a & 0x3Fu8) & m != 0) <==> (a & m != 0),
        (0x3Fu8 & m != 0),
        (0xC0u8 & m == 0),
{
}

/// Setting, clearing or flipping the bit of one direction leaves the unknown bits alone.
proof fn lemma_unknown_bits_kept(a: u8, m: u8)
    by (bit_vector)
    requires
        m == 1u8 || m == 2u8 || m == 4u8 || m == 8u8 || m == 16u8 || m == 32u8,
    ensures
        (a | m) & 0xC0u8 == a & 0xC0u8,
        (a & !m) & 0xC0u8 == a & 0xC0u8,
        (a ^ m) & 0xC0u8 == a & 0xC0u8,
        (a & m) & 0xC0u8 == 0,
        (a & 0x3Fu8) & 0xC0u8 == 0,
        (!a & 0x3Fu8) & 0xC0u8 == 0,
        (a & !0x3Fu8) == a & 0xC0u8,
        0xC0u8 & 0xC0u8 == 0xC0u8,
{
}

/// How the unknown bits fare under the bitwise operations on whole sets.
proof fn lemma_unknown_bits_ops(a: u8, b: u8)
    by (bit_vector)
    ensures
        (a | b) & 0xC0u8 == (a & 0xC0u8) | (b & 0xC0u8),
        (a & b) & 0xC0u8 == (a & 0xC0u8) & (b & 0xC0u8),
        (a ^ b) & 0xC0u8 == (a & 0xC0u8) ^ (b & 0xC0u8),
        (a & !b) & 0xC0u8 == (a & 0xC0u8) & !(b & 0xC0u8),
        ((a & 0xC0u8) == 0 || (b & 0xC0u8) == 0) ==> (a & b) & 0xC0u8 == 0,
        (a & 0xC0u8) == 0 ==> (a & !b) & 0xC0u8 == 0,
        ((a & 0xC0u8) == 0 && (b & 0xC0u8) == 0) ==> (a | b) & 0xC0u8 == 0,
        ((a & 0xC0u8) == 0 && (b & 0xC0u8) == 0) ==> (a ^ b) & 0xC0u8 == 0,
{
}

/// The bits of two distinct directions do not overlap.
proof fn lemma_dir_bits_disjoint(m: u8, n: u8)
    by (bit_vector)
    requires
        m == 1u8 || m == 2u8 || m == 4u8 || m == 8u8 || m == 16u8 || m == 32u8,
        n == 1u8 || n == 2u8 || n == 4u8 || n == 8u8 || n == 16u8 || n == 32u8,
    ensures
        (m & n != 0) <==> (m == n),
        (m & 0xC0u8) == 0,
{
}

/// Which direction bits the axis masks hold.
proof fn lemma_mask_members(m: u8)
    by (bit_vector)
    requires
        m == 1u8 || m == 2u8 || m == 4u8 || m == 8u8 || m == 16u8 || m == 32u8,
    ensures
        (0x12u8 & m != 0) <==> (m == 2 || m == 16),
        (0x09u8 & m != 0) <==> (m == 1 || m == 8),
        (0x24u8 & m != 0) <==> (m == 4 || m == 32),
        (0x36u8 & m != 0) <==> (m == 2 || m == 4 || m == 16 || m == 32),
        (0x3Fu8 & m != 0),
        (0u8 & m == 0),
        0u8 & 0xC0u8 == 0,
        0x12u8 & 0xC0u8 == 0,
        0x09u8 & 0xC0u8 == 0,
        0x24u8 & 0xC0u8 == 0,
        0x36u8 & 0xC0u8 == 0,
        0x3Fu8 & 0xC0u8 == 0,
{
}

/// Which directions the named flag sets hold.
proof fn lemma_named_bits(m: u8)
    requires
        is_dir_bit(m),
    ensures
        (0b000001u8 & m != 0) <==> m == 1,
        (0b000010u8 & m != 0) <==> m == 2,
        (0b000100u8 & m != 0) <==> m == 4,
        (0b001000u8 & m != 0) <==> m == 8,
        (0b010000u8 & m != 0) <==> m == 16,
        (0b100000u8 & m != 0) <==> m == 32,
        (0b010010u8 & m != 0) <==> (m == 2 || m == 16),
        (0b001001u8 & m != 0) <==> (m == 1 || m == 8),
        (0b100100u8 & m != 0) <==> (m == 4 || m == 32),
        (0b110110u8 & m != 0) <==> (m == 2 || m == 4 || m == 16 || m == 32),
        (0b111111u8 & m != 0),
{
    lemma_dir_bits_disjoint(1, m);
    lemma_dir_bits_disjoint(2, m);
    lemma_dir_bits_disjoint(4, m);
    lemma_dir_bits_disjoint(8, m);
    lemma_dir_bits_disjoint(16, m);
    lemma_dir_bits_disjoint(32, m);
    lemma_mask_members(m);
}

/// A byte is determined by its six direction bits and its unknown bits.
proof fn lemma_bits_ext(a: u8, b: u8)
    by (bit_vector)
    requires
        (a & 1u8 != 0) == (b & 1u8 != 0),
        (a & 2u8 != 0) == (b & 2u8 != 0),
        (a & 4u8 != 0) == (b & 4u8 != 0),
        (a & 8u8 != 0) == (b & 8u8 != 0),
        (a & 16u8 != 0) == (b & 16u8 != 0),
        (a & 32u8 != 0) == (b & 32u8 != 0),
        a & 0xC0u8 == b & 0xC0u8,
    ensures
        a == b,
{
}

/// Inclusion, overlap, emptiness and fullness, told bit by bit.
proof fn lemma_bits_relations(a: u8, b: u8)
    by (bit_vector)
    ensures
        (b & 0xC0u8 == 0) ==> ((a & b == b) <==> ((b & 1u8 != 0 ==> a & 1u8 != 0) && (b & 2u8
            != 0 ==> a & 2u8 != 0) && (b & 4u8 != 0 ==> a & 4u8 != 0) && (b & 8u8 != 0 ==> a & 8u8
            != 0) && (b & 16u8 != 0 ==> a & 16u8 != 0) && (b & 32u8 != 0 ==> a & 32u8 != 0))),
        ((a & b) & 0xC0u8 == 0) ==> ((a & b != 0) <==> ((a & 1u8 != 0 && b & 1u8 != 0) || (a & 2u8
            != 0 && b & 2u8 != 0) || (a & 4u8 != 0 && b & 4u8 != 0) || (a & 8u8 != 0 && b & 8u8
            != 0) || (a & 16u8 != 0 && b & 16u8 != 0) || (a & 32u8 != 0 && b & 32u8 != 0))),
        (a & 0xC0u8 == 0) ==> ((a == 0) <==> (a & 1u8 == 0 && a & 2u8 == 0 && a & 4u8 == 0 && a
            & 8u8 == 0 && a & 16u8 == 0 && a & 32u8 == 0)),
        (a & 0x3Fu8 == a) <==> (a & 0xC0u8 == 0),
        (0x3Fu8 | a == a) <==> (a & 1u8 != 0 && a & 2u8 != 0 && a & 4u8 != 0 && a & 8u8 != 0 && a
            & 16u8 != 0 && a & 32u8 != 0),
{
}

/// The bit standing for a direction.
fn dir2flag(direction: Direction) -> (r: u8)
    ensures
        r == spec_dir_bit(direction),
{
    let i = direction.repr();
    proof {
        lemma_shift_one(i);
    }
    1u8 << i
}

/// Bit `j` read by shifting, and read by masking.
proof fn lemma_shift_bit(i: u8, j: u8)
    by (bit_vector)
    requires
        j < 8,
    ensures
        ((i >> j) & 1u8 == 0) <==> (i & (1u8 << j) == 0),
{
}

/// Setting and clearing the bits of two distinct directions.
proof fn lemma_opposite_bits(a: u8, m: u8, n: u8)
    by (bit_vector)
    requires
        m == 1u8 || m == 2u8 || m == 4u8 || m == 8u8 || m == 16u8 || m == 32u8,
        n == 1u8 || n == 2u8 || n == 4u8 || n == 8u8 || n == 16u8 || n == 32u8,
        m != n,
    ensures
        (a | m) & m != 0,
        (a | m) & n == a & n,
        (a & !n & !m) & m == 0,
        (a & !n & !m) & n == 0,
        (a & !m & !n) == (a & !n & !m),
        a & m != 0 ==> (a | m) == a,
        (a & m == 0 && a & n == 0) ==> ((a | m) & !m & !n) == a,
{
}

/// Testing the bit of one direction.
proof fn lemma_direction_bit_and(a: u8, m: u8)
    by (bit_vector)
    requires
        m == 1u8 || m == 2u8 || m == 4u8 || m == 8u8 || m == 16u8 || m == 32u8,
    ensures
        (a & m == m) <==> (a & m != 0),
{
}

/// A set of directions, stored as the bits of one byte: bit `n` stands for the direction
/// whose numeric representation is `n`. The two highest bits belong to no direction;
/// they are kept as they were given ("unknown bits").
#[derive(Debug, Clone, Copy, PartialEq, Eq, Structural)]
pub struct DirectionFlags(u8);

impl View for DirectionFlags {
    type V = Set<Direction>;

    /// The directions whose bit is set.
    open spec fn view(&self) -> Set<Direction> {
        Set::new(|d: Direction| self.spec_bits() & spec_dir_bit(d) != 0)
    }
}

impl DirectionFlags {
    /// Directly corresponds to [`Direction::Up`]
    #[allow(non_snake_case)]
    pub fn UP() -> (r: Self)
        ensures
            r.spec_bits() == 0b000001,
            r@ == set![Direction::Up],
    {
        let r = DirectionFlags(0b000001);
        proof {
            assert forall|d: Direction| r@.contains(d) <==> set![Direction::Up].contains(d) by {
                lemma_named_bits(spec_dir_bit(d));
            }
            assert(r@ =~= set![Direction::Up]);
        }
        r
    }

    /// Directly corresponds to [`Direction::Right`]
    #[allow(non_snake_case)]
    pub fn RIGHT() -> (r: Self)
        ensures
            r.spec_bits() == 0b000010,
            r@ == set![Direction::Right],
    {
        let r = DirectionFlags(0b000010);
        proof {
            assert forall|d: Direction| r@.contains(d) <==> set![Direction::Right].contains(d) by {
                lemma_named_bits(spec_dir_bit(d));
            }
            assert(r@ =~= set![Direction::Right]);
        }
        r
    }

    /// Directly corresponds to [`Direction::Front`]
    #[allow(non_snake_case)]
    pub fn FRONT() -> (r: Self)
        ensures
            r.spec_bits() == 0b000100,
            r@ == set![Direction::Front],
    {
        let r = DirectionFlags(0b000100);
        proof {
            assert forall|d: Direction| r@.contains(d) <==> set![Direction::Front].contains(d) by {
                lemma_named_bits(spec_dir_bit(d));
            }
            assert(r@ =~= set![Direction::Front]);
        }
        r
    }

    /// Directly corresponds to [`Direction::Down`]
    #[allow(non_snake_case)]
    pub fn DOWN() -> (r: Self)
        ensures
            r.spec_bits() == 0b001000,
            r@ == set![Direction::Down],
    {
        let r = DirectionFlags(0b001000);
        proof {
            assert forall|d: Direction| r@.contains(d) <==> set![Direction::Down].contains(d) by {
                lemma_named_bits(spec_dir_bit(d));
            }
            assert(r@ =~= set![Direction::Down]);
        }
        r
    }

    /// Directly corresponds to [`Direction::Left`]
    #[allow(non_snake_case)]
    pub fn LEFT() -> (r: Self)
        ensures
            r.spec_bits() == 0b010000,
            r@ == set![Direction::Left],
    {
        let r = DirectionFlags(0b010000);
        proof {
            assert forall|d: Direction| r@.contains(d) <==> set![Direction::Left].contains(d) by {
                lemma_named_bits(spec_dir_bit(d));
            }
            assert(r@ =~= set![Direction::Left]);
        }
        r
    }

    /// Directly corresponds to [`Direction::Back`]
    #[allow(non_snake_case)]
    pub fn BACK() -> (r: Self)
        ensures
            r.spec_bits() == 0b100000,
            r@ == set![Direction::Back],
    {
        let r = DirectionFlags(0b100000);
        proof {
            assert forall|d: Direction| r@.contains(d) <==> set![Direction::Back].contains(d) by {
                lemma_named_bits(spec_dir_bit(d));
            }
            assert(r@ =~= set![Direction::Back]);
        }
        r
    }

    /// Both left and right together
    #[allow(non_snake_case)]
    pub fn MASK_X() -> (r: Self)
        ensures
            r.spec_bits() == 0b010010,
            r@ == set![Direction::Left, Direction::Right],
    {
        let r = DirectionFlags(0b010010);
        proof {
            assert forall|d: Direction| r@.contains(d) <==> set![Direction::Left, Direction::Right].contains(d) by {
                lemma_named_bits(spec_dir_bit(d));
            }
            assert(r@ =~= set![Direction::Left, Direction::Right]);
        }
        r
    }

    /// Both up and down together
    #[allow(non_snake_case)]
    pub fn MASK_Y() -> (r: Self)
        ensures
            r.spec_bits() == 0b001001,
            r@ == set![Direction::Up, Direction::Down],
    {
        let r = DirectionFlags(0b001001);
        proof {
            assert forall|d: Direction| r@.contains(d) <==> set![Direction::Up, Direction::Down].contains(d) by {
                lemma_named_bits(spec_dir_bit(d));
            }
            assert(r@ =~= set![Direction::Up, Direction::Down]);
        }
        r
    }

    /// Both front and back together
    #[allow(non_snake_case)]
    pub fn MASK_Z() -> (r: Self)
        ensures
            r.spec_bits() == 0b100100,
            r@ == set![Direction::Front, Direction::Back],
    {
        let r = DirectionFlags(0b100100);
        proof {
            assert forall|d: Direction| r@.contains(d) <==> set![Direction::Front, Direction::Back].contains(d) by {
                lemma_named_bits(spec_dir_bit(d));
            }
            assert(r@ =~= set![Direction::Front, Direction::Back]);
        }
        r
    }

    /// All horizontal directions
    #[allow(non_snake_case)]
    pub fn MASK_XZ() -> (r: Self)
        ensures
            r.spec_bits() == 0b110110,
            r@ == set![Direction::Left, Direction::Right, Direction::Front, Direction::Back],
    {
        let r = DirectionFlags(0b110110);
        proof {
            assert forall|d: Direction| r@.contains(d) <==> set![Direction::Left, Direction::Right, Direction::Front, Direction::Back].contains(d) by {
                lemma_named_bits(spec_dir_bit(d));
            }
            assert(r@ =~= set![Direction::Left, Direction::Right, Direction::Front, Direction::Back]);
        }
        r
    }

    /// The raw bits.
    pub closed spec fn spec_bits(self) -> u8 {
        self.0
    }

    /// The bits that belong to no direction.
    pub open spec fn spec_unknown_bits(self) -> u8 {
        self.spec_bits() & unknown_mask()
    }

    /// Whether the set holds bits that belong to no direction.
    pub open spec fn spec_has_unknown_bits(self) -> bool {
        self.spec_unknown_bits() != 0
    }

    /// The set with exactly the given bits.
    pub closed spec fn spec_from_bits(bits: u8) -> DirectionFlags {
        DirectionFlags(bits)
    }

    /// `spec_from_bits` keeps the bits it is given.
    pub broadcast proof fn lemma_from_bits_bits(bits: u8)
        ensures
            #[trigger] DirectionFlags::spec_from_bits(bits).spec_bits() == bits,
    {
    }

    /// A set is the one built from its own bits: the bits determine the set.
    pub broadcast proof fn lemma_bits_from_bits(f: DirectionFlags)
        ensures
            #[trigger] DirectionFlags::spec_from_bits(f.spec_bits()) == f,
    {
    }

    /// `|` on the bits is the union of the sets.
    pub broadcast proof fn lemma_or_view(a: DirectionFlags, b: DirectionFlags)
        ensures
            #[trigger] DirectionFlags::spec_from_bits(a.spec_bits() | b.spec_bits())@ == a@.union(b@),
    {
        let r = DirectionFlags::spec_from_bits(a.0 | b.0);
        assert forall|d: Direction| r@.contains(d) == a@.union(b@).contains(d) by {
            lemma_single_bit_ops(a.0, b.0, spec_dir_bit(d));
        }
        assert(r@ =~= a@.union(b@));
    }

    /// `&` on the bits is the intersection of the sets.
    pub broadcast proof fn lemma_and_view(a: DirectionFlags, b: DirectionFlags)
        ensures
            #[trigger] DirectionFlags::spec_from_bits(a.spec_bits() & b.spec_bits())@ == a@.intersect(b@),
    {
        let r = DirectionFlags::spec_from_bits(a.0 & b.0);
        assert forall|d: Direction| r@.contains(d) == a@.intersect(b@).contains(d) by {
            lemma_single_bit_ops(a.0, b.0, spec_dir_bit(d));
        }
        assert(r@ =~= a@.intersect(b@));
    }

    /// `^` on the bits is the symmetric difference of the sets.
    pub broadcast proof fn lemma_xor_view(a: DirectionFlags, b: DirectionFlags)
        ensures
            #[trigger] DirectionFlags::spec_from_bits(a.spec_bits() ^ b.spec_bits())@ == a@.difference(
                b@,
            ).union(b@.difference(a@)),
    {
        let r = DirectionFlags::spec_from_bits(a.0 ^ b.0);
        assert forall|d: Direction|
            r@.contains(d) == a@.difference(b@).union(b@.difference(a@)).contains(d) by {
            lemma_single_bit_ops(a.0, b.0, spec_dir_bit(d));
        }
        assert(r@ =~= a@.difference(b@).union(b@.difference(a@)));
    }

    /// `& !` on the bits is the difference of the sets.
    pub broadcast proof fn lemma_and_not_view(a: DirectionFlags, b: DirectionFlags)
        ensures
            #[trigger] DirectionFlags::spec_from_bits(a.spec_bits() & !b.spec_bits())@ == a@.difference(b@),
    {
        let r = DirectionFlags::spec_from_bits(a.0 & !b.0);
        assert forall|d: Direction| r@.contains(d) == a@.difference(b@).contains(d) by {
            lemma_single_bit_ops(a.0, b.0, spec_dir_bit(d));
        }
        assert(r@ =~= a@.difference(b@));
    }

    /// `!` on the bits, with the unknown bits cleared, is the complement of the set.
    pub broadcast proof fn lemma_not_view(a: DirectionFlags)
        ensures
            #[trigger] DirectionFlags::spec_from_bits(!a.spec_bits() & known_mask())@ == a@.complement(),
    {
        let r = DirectionFlags::spec_from_bits(!a.0 & 0x3F);
        assert forall|d: Direction| r@.contains(d) == a@.complement().contains(d) by {
            lemma_single_bit_ops(a.0, 0, spec_dir_bit(d));
        }
        assert(r@ =~= a@.complement());
    }

    /// The set holding one direction's bit alone holds that direction alone.
    pub(crate) proof fn lemma_single_direction_view(direction: Direction)
        ensures
            DirectionFlags::spec_from_bits(spec_dir_bit(direction))@ == set![direction],
    {
        let m = spec_dir_bit(direction);
        let b = DirectionFlags::spec_from_bits(m);
        assert forall|d: Direction| b@.contains(d) == (d == direction) by {
            lemma_dir_bits_disjoint(m, spec_dir_bit(d));
            lemma_dir_bit_injective(d, direction);
        }
        assert(b@ =~= set![direction]);
    }

    /// Setting the bit of a direction adds the direction.
    pub broadcast proof fn lemma_or_direction_view(a: DirectionFlags, direction: Direction)
        ensures
            #[trigger] DirectionFlags::spec_from_bits(a.spec_bits() | spec_dir_bit(direction))@
                == a@.insert(direction),
    {
        Self::lemma_single_direction_view(direction);
        Self::lemma_or_view(a, DirectionFlags::spec_from_bits(spec_dir_bit(direction)));
        assert(a@.union(set![direction]) =~= a@.insert(direction));
    }

    /// Keeping the bit of a direction alone keeps that direction, if it is there.
    pub broadcast proof fn lemma_and_direction_view(a: DirectionFlags, direction: Direction)
        ensures
            #[trigger] DirectionFlags::spec_from_bits(a.spec_bits() & spec_dir_bit(direction))@
                == a@.intersect(set![direction]),
    {
        Self::lemma_single_direction_view(direction);
        Self::lemma_and_view(a, DirectionFlags::spec_from_bits(spec_dir_bit(direction)));
    }

    /// Flipping the bit of a direction adds it if it is missing, and removes it otherwise.
    pub broadcast proof fn lemma_xor_direction_view(a: DirectionFlags, direction: Direction)
        ensures
            #[trigger] DirectionFlags::spec_from_bits(a.spec_bits() ^ spec_dir_bit(direction))@ == (
            if a@.contains(direction) {
                a@.remove(direction)
            } else {
                a@.insert(direction)
            }),
    {
        Self::lemma_single_direction_view(direction);
        Self::lemma_xor_view(a, DirectionFlags::spec_from_bits(spec_dir_bit(direction)));
        if a@.contains(direction) {
            assert(a@.difference(set![direction]).union(set![direction].difference(a@)) =~= a@.remove(
                direction,
            ));
        } else {
            assert(a@.difference(set![direction]).union(set![direction].difference(a@)) =~= a@.insert(
                direction,
            ));
        }
    }

    /// Membership of each direction, bit by bit.
    pub proof fn lemma_view_bits(f: DirectionFlags)
        ensures
            f@.contains(Direction::Up) == (f.spec_bits() & 1u8 != 0),
            f@.contains(Direction::Right) == (f.spec_bits() & 2u8 != 0),
            f@.contains(Direction::Front) == (f.spec_bits() & 4u8 != 0),
            f@.contains(Direction::Down) == (f.spec_bits() & 8u8 != 0),
            f@.contains(Direction::Left) == (f.spec_bits() & 16u8 != 0),
            f@.contains(Direction::Back) == (f.spec_bits() & 32u8 != 0),
            forall|d: Direction| #[trigger] f@.contains(d) == (f.spec_bits() & spec_dir_bit(d) != 0),
    {
    }

    /// The raw bits.
    pub fn bits(&self) -> (r: u8)
        ensures
            r == self.spec_bits(),
    {
        self.0
    }

    /// The set with exactly the given bits, unknown bits included.
    pub fn from_bits_retain(bits: u8) -> (r: Self)
        ensures
            r.spec_bits() == bits,
    {
        DirectionFlags(bits)
    }

    /// The set with the given bits, with the unknown bits cleared.
    pub fn from_bits_truncate(bits: u8) -> (r: Self)
        ensures
            r.spec_bits() == bits & known_mask(),
            r@ == DirectionFlags::spec_from_bits(bits)@,
            !r.spec_has_unknown_bits(),
    {
        let r = DirectionFlags(bits & 0x3F);
        proof {
            lemma_unknown_bits_kept(bits, 1);
            assert forall|d: Direction| r@.contains(d) == DirectionFlags::spec_from_bits(bits)@.contains(d) by {
                lemma_single_bit_ops(bits, 0, spec_dir_bit(d));
            }
            assert(r@ =~= DirectionFlags::spec_from_bits(bits)@);
        }
        r
    }

    /// The set with the given bits, or `None` if an unknown bit is among them.
    pub fn from_bits(bits: u8) -> (r: Option<Self>)
        ensures
            match r {
                Some(f) => bits & unknown_mask() == 0 && f.spec_bits() == bits,
                None => bits & unknown_mask() != 0,
            },
    {
        let truncated = Self::from_bits_truncate(bits);
        proof {
            lemma_bits_relations(bits, 0);
        }
        if truncated.bits() == bits {
            Some(truncated)
        } else {
            None
        }
    }

    /// The set with no direction.
    pub fn empty() -> (r: Self)
        ensures
            r.spec_bits() == 0,
            r@ == Set::<Direction>::empty(),
    {
        let r = DirectionFlags(0);
        proof {
            assert forall|d: Direction| !r@.contains(d) by {
                lemma_mask_members(spec_dir_bit(d));
            }
            assert(r@ =~= Set::<Direction>::empty());
        }
        r
    }

    /// The set with every direction (and no unknown bit).
    pub fn all() -> (r: Self)
        ensures
            r.spec_bits() == known_mask(),
            r@ == Set::<Direction>::full(),
    {
        let r = DirectionFlags(0x3F);
        proof {
            assert forall|d: Direction| r@.contains(d) by {
                lemma_mask_members(spec_dir_bit(d));
            }
            assert(r@ =~= Set::<Direction>::full());
        }
        r
    }

    /// Whether no bit is set.
    pub fn is_empty(&self) -> (r: bool)
        ensures
            r == (self.spec_bits() == 0),
            r <==> (self@ == Set::<Direction>::empty() && !self.spec_has_unknown_bits()),
    {
        proof {
            Self::lemma_view_bits(*self);
            lemma_bits_relations(self.0, 0);
            lemma_mask_members(1);
            if self@ == Set::<Direction>::empty() {
                assert(!self@.contains(Direction::Up));
                assert(!self@.contains(Direction::Right));
                assert(!self@.contains(Direction::Front));
                assert(!self@.contains(Direction::Down));
                assert(!self@.contains(Direction::Left));
                assert(!self@.contains(Direction::Back));
            }
            if self.0 == 0 {
                assert forall|d: Direction| !self@.contains(d) by {
                    lemma_mask_members(spec_dir_bit(d));
                }
                assert(self@ =~= Set::<Direction>::empty());
            }
        }
        self.0 == 0
    }

    /// Whether every direction is in the set.
    pub fn is_all(&self) -> (r: bool)
        ensures
            r == (known_mask() | self.spec_bits() == self.spec_bits()),
            r <==> self@ == Set::<Direction>::full(),
    {
        proof {
            Self::lemma_view_bits(*self);
            lemma_bits_relations(self.0, 0);
            if self@ == Set::<Direction>::full() {
                assert(self@.contains(Direction::Up));
                assert(self@.contains(Direction::Right));
                assert(self@.contains(Direction::Front));
                assert(self@.contains(Direction::Down));
                assert(self@.contains(Direction::Left));
                assert(self@.contains(Direction::Back));
            }
            if known_mask() | self.0 == self.0 {
                assert forall|d: Direction| self@.contains(d) by {
                    match d {
                        Direction::Up => {},
                        Direction::Right => {},
                        Direction::Front => {},
                        Direction::Down => {},
                        Direction::Left => {},
                        Direction::Back => {},
                    }
                }
                assert(self@ =~= Set::<Direction>::full());
            }
        }
        Self::all().bits() | self.bits() == self.bits()
    }

    /// Whether every bit of `other` is set in `self`.
    pub fn contains(&self, other: Self) -> (r: bool)
        ensures
            r == (self.spec_bits() & other.spec_bits() == other.spec_bits()),
            !other.spec_has_unknown_bits() ==> (r <==> other@.subset_of(self@)),
    {
        proof {
            Self::lemma_view_bits(*self);
            Self::lemma_view_bits(other);
            lemma_bits_relations(self.0, other.0);
            if !other.spec_has_unknown_bits() && other@.subset_of(self@) {
                assert(other@.contains(Direction::Up) ==> self@.contains(Direction::Up));
                assert(other@.contains(Direction::Right) ==> self@.contains(Direction::Right));
                assert(other@.contains(Direction::Front) ==> self@.contains(Direction::Front));
                assert(other@.contains(Direction::Down) ==> self@.contains(Direction::Down));
                assert(other@.contains(Direction::Left) ==> self@.contains(Direction::Left));
                assert(other@.contains(Direction::Back) ==> self@.contains(Direction::Back));
            }
            if !other.spec_has_unknown_bits() && self.0 & other.0 == other.0 {
                assert forall|d: Direction| other@.contains(d) implies self@.contains(d) by {
                    match d {
                        Direction::Up => {},
                        Direction::Right => {},
                        Direction::Front => {},
                        Direction::Down => {},
                        Direction::Left => {},
                        Direction::Back => {},
                    }
                }
            }
        }
        self.bits() & other.bits() == other.bits()
    }

    /// Whether `self` and `other` share a set bit.
    pub fn intersects(&self, other: Self) -> (r: bool)
        ensures
            r == (self.spec_bits() & other.spec_bits() != 0),
            (!self.spec_has_unknown_bits() || !other.spec_has_unknown_bits()) ==> (r <==> !self@.disjoint(other@)),
    {
        proof {
            Self::lemma_view_bits(*self);
            Self::lemma_view_bits(other);
            lemma_bits_relations(self.0, other.0);
            lemma_unknown_bits_ops(self.0, other.0);
            if !self.spec_has_unknown_bits() || !other.spec_has_unknown_bits() {
                if self.0 & other.0 != 0 {
                    if self@.contains(Direction::Up) && other@.contains(Direction::Up) {
                        assert(self@.intersect(other@).contains(Direction::Up));
                    } else if self@.contains(Direction::Right) && other@.contains(Direction::Right) {
                        assert(self@.intersect(other@).contains(Direction::Right));
                    } else if self@.contains(Direction::Front) && other@.contains(Direction::Front) {
                        assert(self@.intersect(other@).contains(Direction::Front));
                    } else if self@.contains(Direction::Down) && other@.contains(Direction::Down) {
                        assert(self@.intersect(other@).contains(Direction::Down));
                    } else if self@.contains(Direction::Left) && other@.contains(Direction::Left) {
                        assert(self@.intersect(other@).contains(Direction::Left));
                    } else {
                        assert(self@.intersect(other@).contains(Direction::Back));
                    }
                } else {
                    assert forall|d: Direction| !(self@.contains(d) && other@.contains(d)) by {
                        match d {
                            Direction::Up => {},
                            Direction::Right => {},
                            Direction::Front => {},
                            Direction::Down => {},
                            Direction::Left => {},
                            Direction::Back => {},
                        }
                    }
                }
            }
        }
        self.bits() & other.bits() != 0
    }

    /// The bitwise or: every direction in either set.
    pub fn union(self, other: Self) -> (r: Self)
        ensures
            r.spec_bits() == self.spec_bits() | other.spec_bits(),
            r@ == self@.union(other@),
            r.spec_unknown_bits() == self.spec_unknown_bits() | other.spec_unknown_bits(),
    {
        let r = DirectionFlags(self.0 | other.0);
        proof {
            assert forall|d: Direction| r@.contains(d) == self@.union(other@).contains(d) by {
                lemma_single_bit_ops(self.0, other.0, spec_dir_bit(d));
            }
            assert(r@ =~= self@.union(other@));
            lemma_unknown_bits_ops(self.0, other.0);
        }
        r
    }

    /// The bitwise and: every direction in both sets.
    pub fn intersection(self, other: Self) -> (r: Self)
        ensures
            r.spec_bits() == self.spec_bits() & other.spec_bits(),
            r@ == self@.intersect(other@),
            r.spec_unknown_bits() == self.spec_unknown_bits() & other.spec_unknown_bits(),
    {
        let r = DirectionFlags(self.0 & other.0);
        proof {
            assert forall|d: Direction| r@.contains(d) == self@.intersect(other@).contains(d) by {
                lemma_single_bit_ops(self.0, other.0, spec_dir_bit(d));
            }
            assert(r@ =~= self@.intersect(other@));
            lemma_unknown_bits_ops(self.0, other.0);
        }
        r
    }

    /// The bitwise `&!`: every direction of `self` that is not in `other`.
    pub fn difference(self, other: Self) -> (r: Self)
        ensures
            r.spec_bits() == self.spec_bits() & !other.spec_bits(),
            r@ == self@.difference(other@),
            r.spec_unknown_bits() == self.spec_unknown_bits() & !other.spec_unknown_bits(),
    {
        let r = DirectionFlags(self.0 & !other.0);
        proof {
            assert forall|d: Direction| r@.contains(d) == self@.difference(other@).contains(d) by {
                lemma_single_bit_ops(self.0, other.0, spec_dir_bit(d));
            }
            assert(r@ =~= self@.difference(other@));
            lemma_unknown_bits_ops(self.0, other.0);
        }
        r
    }

    /// The bitwise xor: every direction in exactly one of the sets.
    pub fn symmetric_difference(self, other: Self) -> (r: Self)
        ensures
            r.spec_bits() == self.spec_bits() ^ other.spec_bits(),
            r@ == self@.difference(other@).union(other@.difference(self@)),
            r.spec_unknown_bits() == self.spec_unknown_bits() ^ other.spec_unknown_bits(),
    {
        let r = DirectionFlags(self.0 ^ other.0);
        proof {
            assert forall|d: Direction|
                r@.contains(d) == self@.difference(other@).union(other@.difference(self@)).contains(
                    d,
                ) by {
                lemma_single_bit_ops(self.0, other.0, spec_dir_bit(d));
            }
            assert(r@ =~= self@.difference(other@).union(other@.difference(self@)));
            lemma_unknown_bits_ops(self.0, other.0);
        }
        r
    }

    /// The bitwise negation, with the unknown bits cleared: every direction not in the set.
    pub fn complement(self) -> (r: Self)
        ensures
            r.spec_bits() == !self.spec_bits() & known_mask(),
            r@ == self@.complement(),
            !r.spec_has_unknown_bits(),
    {
        let r = Self::from_bits_truncate(!self.bits());
        proof {
            assert forall|d: Direction| r@.contains(d) == self@.complement().contains(d) by {
                lemma_single_bit_ops(self.0, 0, spec_dir_bit(d));
            }
            assert(r@ =~= self@.complement());
            lemma_unknown_bits_kept(self.0, 1);
        }
        r
    }

    /// Adds the bits of `other`.
    pub fn insert(&mut self, other: Self)
        ensures
            final(self).spec_bits() == old(self).spec_bits() | other.spec_bits(),
            final(self)@ == old(self)@.union(other@),
    {
        *self = self.union(other);
    }

    /// Clears the bits of `other`.
    pub fn remove(&mut self, other: Self)
        ensures
            final(self).spec_bits() == old(self).spec_bits() & !other.spec_bits(),
            final(self)@ == old(self)@.difference(other@),
    {
        *self = self.difference(other);
    }

    /// Flips the bits of `other`.
    pub fn toggle(&mut self, other: Self)
        ensures
            final(self).spec_bits() == old(self).spec_bits() ^ other.spec_bits(),
            final(self)@ == old(self)@.difference(other@).union(other@.difference(old(self)@)),
    {
        *self = self.symmetric_difference(other);
    }

    /// Adds the bits of `other` if `value` holds, and clears them otherwise.
    pub fn set(&mut self, other: Self, value: bool)
        ensures
            value ==> final(self).spec_bits() == old(self).spec_bits() | other.spec_bits(),
            !value ==> final(self).spec_bits() == old(self).spec_bits() & !other.spec_bits(),
            value ==> final(self)@ == old(self)@.union(other@),
            !value ==> final(self)@ == old(self)@.difference(other@),
    {
        if value {
            self.insert(other);
        } else {
            self.remove(other);
        }
    }

    /// Create a new set holding the given direction alone.
    pub fn new(direction: Direction) -> (r: Self)
        ensures
            r.spec_bits() == spec_dir_bit(direction),
            r@ == set![direction],
    {
        let r = Self::from_bits_retain(dir2flag(direction));
        proof {
            assert forall|d: Direction| r@.contains(d) == set![direction].contains(d) by {
                lemma_dir_bits_disjoint(spec_dir_bit(direction), spec_dir_bit(d));
                lemma_dir_bit_injective(d, direction);
            }
            assert(r@ =~= set![direction]);
        }
        r
    }

    /// Whether this flag set contains the specified direction
    pub fn contains_direction(self, direction: Direction) -> (r: bool)
        ensures
            r == self@.contains(direction),
    {
        let r = self.contains(direction.to_flags());
        proof {
            lemma_dir_bits_disjoint(spec_dir_bit(direction), 1);
            lemma_single_bit_ops(self.0, 0, spec_dir_bit(direction));
            lemma_bits_relations(self.0, spec_dir_bit(direction));
            lemma_direction_bit_and(self.0, spec_dir_bit(direction));
        }
        r
    }

    /// Whether this flag set contains the specified direction, but NOT the reverse direction
    pub fn contains_direction_exclusive_axis(self, direction: Direction) -> (r: bool)
        ensures
            r == (self@.contains(direction) && !self@.contains(direction.spec_reverse())),
    {
        self.contains_direction(direction) && !self.contains_direction(direction.reverse())
    }

    /// bitwise `|` a direction, adding the direction to the flag set
    pub fn union_direction(self, direction: Direction) -> (r: Self)
        ensures
            r.spec_bits() == self.spec_bits() | spec_dir_bit(direction),
            r@ == self@.insert(direction),
            r.spec_unknown_bits() == self.spec_unknown_bits(),
    {
        let r = self.union(direction.to_flags());
        proof {
            assert(set![direction].insert(direction) =~= set![direction]);
            assert(self@.union(set![direction]) =~= self@.insert(direction));
            lemma_unknown_bits_kept(self.0, spec_dir_bit(direction));
        }
        r
    }

    /// bitwise `&` a direction, keeping the direction alone if it is in the set
    pub fn intersection_direction(self, direction: Direction) -> (r: Self)
        ensures
            r.spec_bits() == self.spec_bits() & spec_dir_bit(direction),
            r@ == self@.intersect(set![direction]),
            !r.spec_has_unknown_bits(),
    {
        let r = self.intersection(direction.to_flags());
        proof {
            lemma_unknown_bits_kept(self.0, spec_dir_bit(direction));
        }
        r
    }

    /// bitwise `&!` with a direction, removing the direction from the flag set
    pub fn difference_direction(self, direction: Direction) -> (r: Self)
        ensures
            r.spec_bits() == self.spec_bits() & !spec_dir_bit(direction),
            r@ == self@.remove(direction),
            r.spec_unknown_bits() == self.spec_unknown_bits(),
    {
        let r = self.difference(direction.to_flags());
        proof {
            assert(self@.difference(set![direction]) =~= self@.remove(direction));
            lemma_unknown_bits_kept(self.0, spec_dir_bit(direction));
        }
        r
    }

    /// bitwise `^` with a single direction, flipping whether the direction is in the set
    pub fn symmetric_difference_direction(self, direction: Direction) -> (r: Self)
        ensures
            r.spec_bits() == self.spec_bits() ^ spec_dir_bit(direction),
            self@.contains(direction) ==> r@ == self@.remove(direction),
            !self@.contains(direction) ==> r@ == self@.insert(direction),
            r.spec_unknown_bits() == self.spec_unknown_bits(),
    {
        let r = self.symmetric_difference(direction.to_flags());
        proof {
            if self@.contains(direction) {
                assert(r@ =~= self@.remove(direction));
            } else {
                assert(r@ =~= self@.insert(direction));
            }
            lemma_unknown_bits_kept(self.0, spec_dir_bit(direction));
        }
        r
    }

    /// bitwise `&!` with a direction, removing the direction from the flag set
    pub fn remove_direction(&mut self, direction: Direction)
        ensures
            final(self).spec_bits() == old(self).spec_bits() & !spec_dir_bit(direction),
            final(self)@ == old(self)@.remove(direction),
            final(self).spec_unknown_bits() == old(self).spec_unknown_bits(),
    {
        *self = self.difference_direction(direction);
    }

    /// The bits `with_exclusive_axis_direction` gives: if the reverse of the direction is
    /// in the set, both the direction and its reverse cleared; else the direction added.
    pub open spec fn spec_exclusive_bits(bits: u8, direction: Direction) -> u8 {
        if bits & spec_dir_bit(direction.spec_reverse()) != 0 {
            bits & !spec_dir_bit(direction.spec_reverse()) & !spec_dir_bit(direction)
        } else {
            bits | spec_dir_bit(direction)
        }
    }

    /// add a direction to this set, if and only if its reverse is not in the set.
    ///
    /// If the reverse is in the set, both corresponding flags will be cleared.
    pub fn with_exclusive_axis_direction(self, direction: Direction) -> (r: Self)
        ensures
            r.spec_bits() == Self::spec_exclusive_bits(self.spec_bits(), direction),
            self@.contains(direction.spec_reverse()) ==> r@ == self@.remove(
                direction.spec_reverse(),
            ).remove(direction),
            !self@.contains(direction.spec_reverse()) ==> r@ == self@.insert(direction),
            self@.contains(direction) && !self@.contains(direction.spec_reverse()) ==> r == self,
            r.spec_unknown_bits() == self.spec_unknown_bits(),
    {
        let dir_op = direction.reverse();
        if self.contains_direction(dir_op) {
            // holding opposite movement keys: both are released
            self.difference_direction(dir_op).difference_direction(direction)
        } else {
            let r = self.union_direction(direction);
            proof {
                if self@.contains(direction) {
                    lemma_dir_bit_injective(direction, dir_op);
                    lemma_opposite_bits(self.0, spec_dir_bit(direction), spec_dir_bit(dir_op));
                }
            }
            r
        }
    }

    /// Add the flag corresponding to the provided direction if the opposite direction is not already
    /// present.
    ///
    /// If the opposite direction flag is already present, this clears both of them, canceling the operation entirely.
    pub fn push_exclusive_axis_direction(&mut self, direction: Direction)
        ensures
            final(self).spec_bits() == Self::spec_exclusive_bits(old(self).spec_bits(), direction),
            old(self)@.contains(direction.spec_reverse()) ==> final(self)@ == old(self)@.remove(
                direction.spec_reverse(),
            ).remove(direction),
            !old(self)@.contains(direction.spec_reverse()) ==> final(self)@ == old(self)@.insert(
                direction,
            ),
            old(self)@.contains(direction) && !old(self)@.contains(direction.spec_reverse())
                ==> *final(self) == *old(self),
            final(self).spec_unknown_bits() == old(self).spec_unknown_bits(),
    {
        *self = self.with_exclusive_axis_direction(direction)
    }

    /// Returns `true` if any bits are set that do NOT pertain to a valid direction.
    pub fn contains_unknown_bits_const(self) -> (r: bool)
        ensures
            r == self.spec_has_unknown_bits(),
    {
        proof {
            lemma_unknown_bits_kept(self.0, 1);
        }
        self.bits() & !(Self::all().bits()) != 0
    }

    /// Convert from an axis (left-handed coordinate system)
    pub fn from_signed_axis_lh(axis: SignedAxis) -> (r: Self)
        ensures
            r.spec_bits() == spec_dir_bit(axis.spec_to_direction_lh()),
            r@ == set![axis.spec_to_direction_lh()],
    {
        Self::new(axis.to_direction_lh())
    }

    /// Convert from an axis (right-handed coordinate system)
    pub fn from_signed_axis_rh(axis: SignedAxis) -> (r: Self)
        ensures
            r.spec_bits() == spec_dir_bit(axis.spec_to_direction_rh()),
            r@ == set![axis.spec_to_direction_rh()],
    {
        Self::new(axis.to_direction_rh())
    }

    /// Convert from an axis to the corresponding direction flags mask.
    pub fn from_axis_mask(axis: Axis) -> (r: Self)
        ensures
            r.spec_bits() == axis.spec_mask_bits(),
            r@ == axis.spec_directions(),
    {
        axis.to_direction_flags_mask()
    }

    /// Returns whether the set contains any bits that correspond to the provided [`Axis`]
    pub fn intersects_axis(self, axis: Axis) -> (r: bool)
        ensures
            r == (self.spec_bits() & axis.spec_mask_bits() != 0),
            r <==> !self@.disjoint(axis.spec_directions()),
    {
        let mask = axis.to_direction_flags_mask();
        proof {
            lemma_mask_members(1);
        }
        self.intersects(mask)
    }

    /// Returns the bits this set contains that correspond to the provided [`Axis`]
    pub fn intersection_axis(self, axis: Axis) -> (r: Self)
        ensures
            r.spec_bits() == self.spec_bits() & axis.spec_mask_bits(),
            r@ == self@.intersect(axis.spec_directions()),
            !r.spec_has_unknown_bits(),
    {
        let mask = axis.to_direction_flags_mask();
        proof {
            lemma_mask_members(1);
            lemma_unknown_bits_ops(self.0, mask.0);
        }
        self.intersection(mask)
    }

    /// The sign along an axis: 1 if the set holds the positive direction of the axis and
    /// not the negative one, -1 the other way round, 0 otherwise.
    pub open spec fn spec_signum(s: Set<Direction>, positive: Direction, negative: Direction) -> i8 {
        if s.contains(positive) && !s.contains(negative) {
            1
        } else if s.contains(negative) && !s.contains(positive) {
            -1i8
        } else {
            0
        }
    }

    /// The sign of the set along one axis, from its positive and negative directions.
    fn signum_along(self, axis: Axis, positive: Direction, negative: Direction) -> (r: i8)
        requires
            positive.spec_axis() == axis,
            negative.spec_axis() == axis,
            positive != negative,
        ensures
            r == Self::spec_signum(self@, positive, negative),
    {
        let on_axis = self.intersection_axis(axis);
        let neg = Self::new(negative);
        let pos = Self::new(positive);
        proof {
            assert forall|d: Direction| d.spec_axis() == axis implies d == positive || d == negative by {
            }
            lemma_dir_bits_disjoint(spec_dir_bit(negative), spec_dir_bit(negative));
            lemma_dir_bits_disjoint(spec_dir_bit(positive), spec_dir_bit(positive));
            if self@.contains(negative) && !self@.contains(positive) {
                assert(on_axis@ =~= neg@);
                Self::lemma_view_determines(on_axis, neg);
            } else {
                assert(on_axis@.contains(positive) ==> on_axis@ != neg@);
                assert(!on_axis@.contains(negative) ==> on_axis@ != neg@);
            }
            if self@.contains(positive) && !self@.contains(negative) {
                assert(on_axis@ =~= pos@);
                Self::lemma_view_determines(on_axis, pos);
            } else {
                assert(on_axis@.contains(negative) ==> on_axis@ != pos@);
                assert(!on_axis@.contains(positive) ==> on_axis@ != pos@);
            }
            lemma_mask_members(1);
            lemma_dir_bit_injective(positive, negative);
        }
        if on_axis == neg {
            -1
        } else if on_axis == pos {
            1
        } else {
            0
        }
    }

    /// Get the sign of the local X axis (right-handed): -1 for left, 1 for right, 0 for
    /// neither or both
    pub fn signum_x_rh(self) -> (r: i8)
        ensures
            r == Self::spec_signum(self@, Direction::Right, Direction::Left),
            (r == 1) == (self@.contains(Direction::Right) && !self@.contains(Direction::Left)),
            (r == -1) == (self@.contains(Direction::Left) && !self@.contains(Direction::Right)),
            (r == 0) == (self@.contains(Direction::Right) == self@.contains(Direction::Left)),
    {
        self.signum_along(Axis::X, Direction::Right, Direction::Left)
    }

    /// Get the sign of the local X axis (left-handed): the same as the right-handed one
    pub fn signum_x_lh(self) -> (r: i8)
        ensures
            r == Self::spec_signum(self@, Direction::Right, Direction::Left),
            (r == 1) == (self@.contains(Direction::Right) && !self@.contains(Direction::Left)),
            (r == -1) == (self@.contains(Direction::Left) && !self@.contains(Direction::Right)),
            (r == 0) == (self@.contains(Direction::Right) == self@.contains(Direction::Left)),
    {
        self.signum_x_rh()
    }

    /// Get the sign of the local Y axis (right-handed): -1 for down, 1 for up, 0 for
    /// neither or both
    pub fn signum_y_rh(self) -> (r: i8)
        ensures
            r == Self::spec_signum(self@, Direction::Up, Direction::Down),
            (r == 1) == (self@.contains(Direction::Up) && !self@.contains(Direction::Down)),
            (r == -1) == (self@.contains(Direction::Down) && !self@.contains(Direction::Up)),
            (r == 0) == (self@.contains(Direction::Up) == self@.contains(Direction::Down)),
    {
        self.signum_along(Axis::Y, Direction::Up, Direction::Down)
    }

    /// Get the sign of the local Y axis (left-handed): the same as the right-handed one
    pub fn signum_y_lh(self) -> (r: i8)
        ensures
            r == Self::spec_signum(self@, Direction::Up, Direction::Down),
            (r == 1) == (self@.contains(Direction::Up) && !self@.contains(Direction::Down)),
            (r == -1) == (self@.contains(Direction::Down) && !self@.contains(Direction::Up)),
            (r == 0) == (self@.contains(Direction::Up) == self@.contains(Direction::Down)),
    {
        self.signum_y_rh()
    }

    /// Get the sign of the local Z axis (right-handed): -1 for front, 1 for back, 0 for
    /// neither or both
    pub fn signum_z_rh(self) -> (r: i8)
        ensures
            r == Self::spec_signum(self@, Direction::Back, Direction::Front),
            (r == 1) == (self@.contains(Direction::Back) && !self@.contains(Direction::Front)),
            (r == -1) == (self@.contains(Direction::Front) && !self@.contains(Direction::Back)),
            (r == 0) == (self@.contains(Direction::Back) == self@.contains(Direction::Front)),
    {
        self.signum_along(Axis::Z, Direction::Back, Direction::Front)
    }

    /// Get the sign of the local Z axis (left-handed): -1 for back, 1 for front, 0 for
    /// neither or both
    pub fn signum_z_lh(self) -> (r: i8)
        ensures
            r == Self::spec_signum(self@, Direction::Front, Direction::Back),
            (r == 1) == (self@.contains(Direction::Front) && !self@.contains(Direction::Back)),
            (r == -1) == (self@.contains(Direction::Back) && !self@.contains(Direction::Front)),
            (r == 0) == (self@.contains(Direction::Front) == self@.contains(Direction::Back)),
    {
        self.signum_along(Axis::Z, Direction::Front, Direction::Back)
    }

    /// Tries to get the lowest flag in the set, returns `None` if this set is empty.
    /// The set must hold no unknown bit.
    pub fn lowest_flag(self) -> (r: Option<Direction>)
        requires
            !self.spec_has_unknown_bits(),
        ensures
            r is None <==> self@ == Set::<Direction>::empty(),
            r matches Some(d) ==> self@.contains(d) && forall|e: Direction|
                #[trigger] self@.contains(e) ==> d.spec_index() <= e.spec_index(),
    {
        let tz = self.bits().trailing_zeros();
        proof {
            broadcast use vstd::std_specs::bits::axiom_u8_trailing_zeros;

            let b = self.0;
            Self::lemma_view_bits(self);
            lemma_bits_relations(b, 0);
            assert forall|e: Direction| #[trigger] self@.contains(e) implies tz <= e.spec_index() by {
                let j = e.spec_index();
                lemma_shift_bit(b, j);
                lemma_shift_one(j);
                if (j as u32) < tz {
                    assert((b >> j) & 1u8 == 0u8);
                }
            }
            if b != 0 {
                if tz >= 6 {
                    lemma_shift_bit(b, 0);
                    lemma_shift_bit(b, 1);
                    lemma_shift_bit(b, 2);
                    lemma_shift_bit(b, 3);
                    lemma_shift_bit(b, 4);
                    lemma_shift_bit(b, 5);
                    lemma_shift_one(0);
                    lemma_shift_one(1);
                    lemma_shift_one(2);
                    lemma_shift_one(3);
                    lemma_shift_one(4);
                    lemma_shift_one(5);
                    assert((b >> 0u8) & 1u8 == 0u8);
                    assert((b >> 1u8) & 1u8 == 0u8);
                    assert((b >> 2u8) & 1u8 == 0u8);
                    assert((b >> 3u8) & 1u8 == 0u8);
                    assert((b >> 4u8) & 1u8 == 0u8);
                    assert((b >> 5u8) & 1u8 == 0u8);
                }
                lemma_shift_bit(b, tz as u8);
                lemma_shift_one(tz as u8);
            } else {
                assert forall|e: Direction| !self@.contains(e) by {}
                assert(self@ =~= Set::<Direction>::empty());
            }
        }
        Direction::try_from_repr(tz as u8)
    }

    /// Create an iterator of all the direction flags currently set as enum values.
    pub fn into_directions_iter(self) -> (r: DirectionFlagsIter)
        ensures
            r@ == self@,
            r.spec_remaining() == self.spec_bits(),
    {
        DirectionFlagsIter { remaining: self.bits() }
    }

    /// The raw bits as two upper-case hexadecimal digits, as the set is displayed.
    pub fn to_string(&self) -> (r: String)
        ensures
            r@ == seq![spec_hex_digit(self.spec_bits() / 16), spec_hex_digit(self.spec_bits() % 16)],
    {
        let digits: [&str; 16] = [
            "0",
            "1",
            "2",
            "3",
            "4",
            "5",
            "6",
            "7",
            "8",
            "9",
            "A",
            "B",
            "C",
            "D",
            "E",
            "F",
        ];
        proof {
            reveal_strlit("0");
            reveal_strlit("1");
            reveal_strlit("2");
            reveal_strlit("3");
            reveal_strlit("4");
            reveal_strlit("5");
            reveal_strlit("6");
            reveal_strlit("7");
            reveal_strlit("8");
            reveal_strlit("9");
            reveal_strlit("A");
            reveal_strlit("B");
            reveal_strlit("C");
            reveal_strlit("D");
            reveal_strlit("E");
            reveal_strlit("F");
            assert forall|k: int| 0 <= k < 16 implies #[trigger] digits@[k]@ == seq![
                spec_hex_digit(k as u8),
            ] by {
                if k == 0 {} else if k == 1 {} else if k == 2 {} else if k == 3 {} else if k == 4 {
                } else if k == 5 {} else if k == 6 {} else if k == 7 {} else if k == 8 {
                } else if k == 9 {} else if k == 10 {} else if k == 11 {} else if k == 12 {
                } else if k == 13 {} else if k == 14 {} else {}
            }
        }
        let mut out = String::new();
        out.append(digits[(self.0 / 16) as usize]);
        out.append(digits[(self.0 % 16) as usize]);
        proof {
            assert(out@ =~= seq![spec_hex_digit(self.spec_bits() / 16), spec_hex_digit(self.spec_bits() % 16)]);
        }
        out
    }

    /// Holding a direction and then its opposite cancels out: from a set with neither,
    /// `with_exclusive_axis_direction` of a direction and then of its reverse gives the
    /// set back; and the result never holds both a direction and its reverse.
    pub proof fn lemma_exclusive_axis_direction(bits: u8, direction: Direction)
        ensures
            ({
                let once = Self::spec_exclusive_bits(bits, direction);
                bits & spec_dir_bit(direction) == 0 && bits & spec_dir_bit(direction.spec_reverse())
                    == 0 ==> Self::spec_exclusive_bits(once, direction.spec_reverse()) == bits
            }),
            !(Self::spec_exclusive_bits(bits, direction) & spec_dir_bit(direction) != 0
                && Self::spec_exclusive_bits(bits, direction) & spec_dir_bit(direction.spec_reverse())
                != 0),
    {
        let m = spec_dir_bit(direction);
        let n = spec_dir_bit(direction.spec_reverse());
        lemma_dir_bit_injective(direction, direction.spec_reverse());
        lemma_dir_bit_injective(direction.spec_reverse(), direction);
        lemma_opposite_bits(bits, m, n);
        lemma_opposite_bits(bits | m, n, m);
    }

    /// The left-handed sign along Z is the opposite of the right-handed one; along X and Y
    /// they agree.
    pub proof fn lemma_signum_handedness(s: Set<Direction>)
        ensures
            Self::spec_signum(s, Direction::Front, Direction::Back) == -Self::spec_signum(
                s,
                Direction::Back,
                Direction::Front,
            ),
    {
    }

    /// Two sets with the same directions and the same unknown bits are equal.
    pub proof fn lemma_view_determines(a: DirectionFlags, b: DirectionFlags)
        requires
            a@ == b@,
            a.spec_unknown_bits() == b.spec_unknown_bits(),
        ensures
            a == b,
    {
        Self::lemma_view_bits(a);
        Self::lemma_view_bits(b);
        assert(a@.contains(Direction::Up) == b@.contains(Direction::Up));
        assert(a@.contains(Direction::Right) == b@.contains(Direction::Right));
        assert(a@.contains(Direction::Front) == b@.contains(Direction::Front));
        assert(a@.contains(Direction::Down) == b@.contains(Direction::Down));
        assert(a@.contains(Direction::Left) == b@.contains(Direction::Left));
        assert(a@.contains(Direction::Back) == b@.contains(Direction::Back));
        lemma_bits_ext(a.0, b.0);
    }

}

impl core::ops::BitAnd<Direction> for DirectionFlags {
    type Output = Self;

    fn bitand(self, rhs: Direction) -> (r: Self::Output) {
        self.intersection_direction(rhs)
    }
}

impl vstd::std_specs::ops::BitAndSpecImpl<Direction> for DirectionFlags {
    open spec fn obeys_bitand_spec() -> bool {
        true
    }

    open spec fn bitand_req(self, rhs: Direction) -> bool {
        true
    }

    open spec fn bitand_spec(self, rhs: Direction) -> Self::Output {
        DirectionFlags::spec_from_bits(self.spec_bits() & spec_dir_bit(rhs))
    }
}

impl core::ops::BitAndAssign<Direction> for DirectionFlags {
    fn bitand_assign(&mut self, rhs: Direction)
        ensures
            final(self).spec_bits() == old(self).spec_bits() & spec_dir_bit(rhs),
            final(self)@ == old(self)@.intersect(set![rhs]),
    {
        *self = self.intersection_direction(rhs);
    }
}

impl core::ops::BitOr<Direction> for DirectionFlags {
    type Output = Self;

    fn bitor(self, rhs: Direction) -> (r: Self::Output) {
        self.union_direction(rhs)
    }
}

impl vstd::std_specs::ops::BitOrSpecImpl<Direction> for DirectionFlags {
    open spec fn obeys_bitor_spec() -> bool {
        true
    }

    open spec fn bitor_req(self, rhs: Direction) -> bool {
        true
    }

    open spec fn bitor_spec(self, rhs: Direction) -> Self::Output {
        DirectionFlags::spec_from_bits(self.spec_bits() | spec_dir_bit(rhs))
    }
}

impl core::ops::BitOrAssign<Direction> for DirectionFlags {
    fn bitor_assign(&mut self, rhs: Direction)
        ensures
            final(self).spec_bits() == old(self).spec_bits() | spec_dir_bit(rhs),
            final(self)@ == old(self)@.insert(rhs),
    {
        *self = self.union_direction(rhs);
    }
}

impl core::ops::BitXor<Direction> for DirectionFlags {
    type Output = Self;

    fn bitxor(self, rhs: Direction) -> (r: Self::Output) {
        self.symmetric_difference_direction(rhs)
    }
}

impl vstd::std_specs::ops::BitXorSpecImpl<Direction> for DirectionFlags {
    open spec fn obeys_bitxor_spec() -> bool {
        true
    }

    open spec fn bitxor_req(self, rhs: Direction) -> bool {
        true
    }

    open spec fn bitxor_spec(self, rhs: Direction) -> Self::Output {
        DirectionFlags::spec_from_bits(self.spec_bits() ^ spec_dir_bit(rhs))
    }
}

impl core::ops::BitXorAssign<Direction> for DirectionFlags {
    fn bitxor_assign(&mut self, rhs: Direction)
        ensures
            final(self).spec_bits() == old(self).spec_bits() ^ spec_dir_bit(rhs),
            old(self)@.contains(rhs) ==> final(self)@ == old(self)@.remove(rhs),
            !old(self)@.contains(rhs) ==> final(self)@ == old(self)@.insert(rhs),
    {
        *self = self.symmetric_difference_direction(rhs);
    }
}

impl core::ops::BitAnd for DirectionFlags {
    type Output = Self;

    fn bitand(self, rhs: DirectionFlags) -> (r: Self::Output) {
        self.intersection(rhs)
    }
}

impl vstd::std_specs::ops::BitAndSpecImpl for DirectionFlags {
    open spec fn obeys_bitand_spec() -> bool {
        true
    }

    open spec fn bitand_req(self, rhs: DirectionFlags) -> bool {
        true
    }

    open spec fn bitand_spec(self, rhs: DirectionFlags) -> Self::Output {
        DirectionFlags::spec_from_bits(self.spec_bits() & rhs.spec_bits())
    }
}

impl core::ops::BitAndAssign for DirectionFlags {
    fn bitand_assign(&mut self, rhs: DirectionFlags)
        ensures
            final(self).spec_bits() == old(self).spec_bits() & rhs.spec_bits(),
            final(self)@ == old(self)@.intersect(rhs@),
    {
        *self = self.intersection(rhs);
    }
}

impl core::ops::BitOr for DirectionFlags {
    type Output = Self;

    fn bitor(self, rhs: DirectionFlags) -> (r: Self::Output) {
        self.union(rhs)
    }
}

impl vstd::std_specs::ops::BitOrSpecImpl for DirectionFlags {
    open spec fn obeys_bitor_spec() -> bool {
        true
    }

    open spec fn bitor_req(self, rhs: DirectionFlags) -> bool {
        true
    }

    open spec fn bitor_spec(self, rhs: DirectionFlags) -> Self::Output {
        DirectionFlags::spec_from_bits(self.spec_bits() | rhs.spec_bits())
    }
}

impl core::ops::BitOrAssign for DirectionFlags {
    fn bitor_assign(&mut self, rhs: DirectionFlags)
        ensures
            final(self).spec_bits() == old(self).spec_bits() | rhs.spec_bits(),
            final(self)@ == old(self)@.union(rhs@),
    {
        *self = self.union(rhs);
    }
}

impl core::ops::BitXor for DirectionFlags {
    type Output = Self;

    fn bitxor(self, rhs: DirectionFlags) -> (r: Self::Output) {
        self.symmetric_difference(rhs)
    }
}

impl vstd::std_specs::ops::BitXorSpecImpl for DirectionFlags {
    open spec fn obeys_bitxor_spec() -> bool {
        true
    }

    open spec fn bitxor_req(self, rhs: DirectionFlags) -> bool {
        true
    }

    open spec fn bitxor_spec(self, rhs: DirectionFlags) -> Self::Output {
        DirectionFlags::spec_from_bits(self.spec_bits() ^ rhs.spec_bits())
    }
}

impl core::ops::BitXorAssign for DirectionFlags {
    fn bitxor_assign(&mut self, rhs: DirectionFlags)
        ensures
            final(self).spec_bits() == old(self).spec_bits() ^ rhs.spec_bits(),
            final(self)@ == old(self)@.difference(rhs@).union(rhs@.difference(old(self)@)),
    {
        *self = self.symmetric_difference(rhs);
    }
}

impl core::ops::Sub for DirectionFlags {
    type Output = Self;

    fn sub(self, rhs: DirectionFlags) -> (r: Self::Output) {
        self.difference(rhs)
    }
}

impl vstd::std_specs::ops::SubSpecImpl for DirectionFlags {
    open spec fn obeys_sub_spec() -> bool {
        true
    }

    open spec fn sub_req(self, rhs: DirectionFlags) -> bool {
        true
    }

    open spec fn sub_spec(self, rhs: DirectionFlags) -> Self::Output {
        DirectionFlags::spec_from_bits(self.spec_bits() & !rhs.spec_bits())
    }
}

impl core::ops::SubAssign for DirectionFlags {
    fn sub_assign(&mut self, rhs: DirectionFlags)
        ensures
            final(self).spec_bits() == old(self).spec_bits() & !rhs.spec_bits(),
            final(self)@ == old(self)@.difference(rhs@),
    {
        *self = self.difference(rhs);
    }
}

impl core::ops::Not for DirectionFlags {
    type Output = Self;

    fn not(self) -> (r: Self::Output) {
        self.complement()
    }
}

impl vstd::std_specs::ops::NotSpecImpl for DirectionFlags {
    open spec fn obeys_not_spec() -> bool {
        true
    }

    open spec fn not_req(self) -> bool {
        true
    }

    open spec fn not_spec(self) -> Self::Output {
        DirectionFlags::spec_from_bits(!self.spec_bits() & known_mask())
    }
}

impl core::convert::From<Direction> for DirectionFlags {
    fn from(value: Direction) -> (r: Self) {
        Self::new(value)
    }
}

impl vstd::std_specs::convert::FromSpecImpl<Direction> for DirectionFlags {
    open spec fn obeys_from_spec() -> bool {
        true
    }

    open spec fn from_spec(v: Direction) -> Self {
        DirectionFlags::spec_from_bits(spec_dir_bit(v))
    }
}

impl core::default::Default for DirectionFlags {
    /// The empty set.
    fn default() -> (r: Self)
        ensures
            r.spec_bits() == 0,
            r@ == Set::<Direction>::empty(),
    {
        Self::empty()
    }
}

/// An iterator that enumerates over all direction flags, lowest numeric representation
/// first.
pub struct DirectionFlagsIter {
    remaining: u8,
}

impl View for DirectionFlagsIter {
    type V = Set<Direction>;

    /// The directions not yet yielded.
    open spec fn view(&self) -> Set<Direction> {
        DirectionFlags::spec_from_bits(self.spec_remaining())@
    }
}

impl DirectionFlagsIter {
    /// The bits not yet gone through, unknown bits included.
    pub closed spec fn spec_remaining(self) -> u8 {
        self.remaining
    }

    /// Whether unknown bits are still ahead: they make up one last item, which yields
    /// no direction.
    pub open spec fn spec_unknown_pending(self) -> bool {
        self.spec_remaining() & unknown_mask() != 0
    }

    /// Yields the lowest direction not yet yielded, or `None` once there is none left.
    pub fn next(&mut self) -> (r: Option<Direction>)
        ensures
            old(self)@ == Set::<Direction>::empty() ==> r is None && final(self)@ == Set::<
                Direction,
            >::empty() && !final(self).spec_unknown_pending(),
            old(self)@ != Set::<Direction>::empty() ==> r is Some,
            r matches Some(d) ==> old(self)@.contains(d) && (forall|e: Direction| #[trigger]
                old(self)@.contains(e) ==> d.spec_index() <= e.spec_index()) && final(self)@ == old(
                self,
            )@.remove(d) && final(self).spec_unknown_pending() == old(self).spec_unknown_pending(),
    {
        let known = DirectionFlags::from_bits_truncate(self.remaining);
        match known.lowest_flag() {
            Some(d) => {
                self.remaining = DirectionFlags::from_bits_retain(self.remaining).difference_direction(
                    d,
                ).bits();
                Some(d)
            },
            None => {
                // What is left is unknown bits alone: they make up one last item, which
                // names no direction.
                self.remaining = 0;
                proof {
                    lemma_mask_members(1);
                    assert forall|d: Direction| !self@.contains(d) by {
                        lemma_mask_members(spec_dir_bit(d));
                    }
                    assert(self@ =~= Set::<Direction>::empty());
                }
                None
            },
        }
    }

    /// The number of items left: one per remaining direction, and one more for the
    /// unknown bits if any are left (that item yields no direction from `next`).
    pub fn count(self) -> (r: usize)
        ensures
            r == self@.len() + if self.spec_unknown_pending() {
                1int
            } else {
                0int
            },
    {
        let pending = self.remaining & 0xC0 != 0;
        let mut it = self;
        let mut n: usize = 0;
        proof {
            lemma_direction_set_finite(self@);
        }
        loop
            invariant
                n + it@.len() == self@.len(),
                self@.len() <= 6,
            ensures
                n == self@.len(),
            decreases it@.len(),
        {
            proof {
                lemma_direction_set_finite(it@);
            }
            match it.next() {
                Some(_) => {
                    n += 1;
                },
                None => {
                    break ;
                },
            }
        }
        if pending {
            n + 1
        } else {
            n
        }
    }
}

/// The operators on a set of directions are the set operations: with one direction,
/// `|` adds it, `&` keeps it alone if present, `^` flips it (the unknown bits kept by `|`
/// and `^`); with another set, `|`, `&`, `^`, `-` and `!` are union, intersection,
/// symmetric difference, difference and complement; a direction converts to the set
/// holding it alone.
pub proof fn lemma_operators_are_set_operations(f: DirectionFlags, g: DirectionFlags, d: Direction)
    ensures
        f.bitor_spec(d)@ == f@.insert(d),
        f.bitor_spec(d).spec_unknown_bits() == f.spec_unknown_bits(),
        f.bitand_spec(d)@ == f@.intersect(set![d]),
        !f.bitand_spec(d).spec_has_unknown_bits(),
        f@.contains(d) ==> f.bitxor_spec(d)@ == f@.remove(d),
        !f@.contains(d) ==> f.bitxor_spec(d)@ == f@.insert(d),
        f.bitxor_spec(d).spec_unknown_bits() == f.spec_unknown_bits(),
        f.bitor_spec(g)@ == f@.union(g@),
        f.bitand_spec(g)@ == f@.intersect(g@),
        f.bitxor_spec(g)@ == f@.difference(g@).union(g@.difference(f@)),
        f.sub_spec(g)@ == f@.difference(g@),
        f.not_spec()@ == f@.complement(),
        !f.not_spec().spec_has_unknown_bits(),
        <DirectionFlags as FromSpec<Direction>>::from_spec(d)@ == set![d],
        !<DirectionFlags as FromSpec<Direction>>::from_spec(d).spec_has_unknown_bits(),
{
    broadcast use group_direction_flags_bits;

    let m = spec_dir_bit(d);
    lemma_dir_bit_injective(d, d);
    lemma_unknown_bits_kept(f.spec_bits(), m);
    lemma_unknown_bits_kept(f.spec_bits(), 1);
    lemma_dir_bits_disjoint(m, m);
    DirectionFlags::lemma_not_view(f);
    DirectionFlags::lemma_single_direction_view(d);
}

/// The sign along an axis looks at that axis alone: it is 1 exactly when the set holds the
/// positive direction and not the negative one, -1 exactly the other way round, and 0
/// otherwise; the directions of the other axes do not change it.
pub proof fn lemma_signum(s: Set<Direction>, positive: Direction, negative: Direction)
    requires
        positive.spec_axis() == negative.spec_axis(),
        positive != negative,
    ensures
        (DirectionFlags::spec_signum(s, positive, negative) == 1) == (s.contains(positive)
            && !s.contains(negative)),
        (DirectionFlags::spec_signum(s, positive, negative) == -1) == (s.contains(negative)
            && !s.contains(positive)),
        (DirectionFlags::spec_signum(s, positive, negative) == 0) == (s.contains(positive)
            == s.contains(negative)),
        DirectionFlags::spec_signum(s, positive, negative) == DirectionFlags::spec_signum(
            s.intersect(positive.spec_axis().spec_directions()),
            positive,
            negative,
        ),
        DirectionFlags::spec_signum(s, positive, negative) == -DirectionFlags::spec_signum(
            s,
            negative,
            positive,
        ),
{
    let t = s.intersect(positive.spec_axis().spec_directions());
    assert(t.contains(positive) == s.contains(positive));
    assert(t.contains(negative) == s.contains(negative));
}

/// The facts that tie a set to its raw bits, and the bitwise operations to the set
/// operations.
pub broadcast group group_direction_flags_bits {
    DirectionFlags::lemma_from_bits_bits,
    DirectionFlags::lemma_bits_from_bits,
    DirectionFlags::lemma_or_view,
    DirectionFlags::lemma_and_view,
    DirectionFlags::lemma_xor_view,
    DirectionFlags::lemma_and_not_view,
    DirectionFlags::lemma_not_view,
    DirectionFlags::lemma_or_direction_view,
    DirectionFlags::lemma_and_direction_view,
    DirectionFlags::lemma_xor_direction_view,
}

} // verus!
