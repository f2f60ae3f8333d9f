use directionlib::{Axis, Direction, DirectionFlags, SignedAxis};

#[test]
fn with_exclusive_axis_direction_doc() {
    let mut direction = DirectionFlags::new(Direction::Left);
    direction |= direction.with_exclusive_axis_direction(Direction::Right);
    assert_eq!(direction, Direction::Left.to_flags());

    direction |= direction.with_exclusive_axis_direction(Direction::Up);
    assert_eq!(direction, Direction::Left.to_flags() | Direction::Up);
}

#[test]
fn with_exclusive_axis_direction_cases() {
    let left = DirectionFlags::new(Direction::Left);
    // already there: unchanged
    assert_eq!(left.with_exclusive_axis_direction(Direction::Left), left);
    // opposite there: the opposite is removed
    assert_eq!(left.with_exclusive_axis_direction(Direction::Right), DirectionFlags::empty());
    // neither: added
    assert_eq!(
        left.with_exclusive_axis_direction(Direction::Front),
        DirectionFlags::from_bits_retain(0b010100)
    );
    // both present: both are cleared
    let both = DirectionFlags::MASK_X() | DirectionFlags::UP();
    assert_eq!(both.with_exclusive_axis_direction(Direction::Left), DirectionFlags::UP());
    assert_eq!(both.with_exclusive_axis_direction(Direction::Right), DirectionFlags::UP());
    let mut pushed = both;
    pushed.push_exclusive_axis_direction(Direction::Right);
    assert_eq!(pushed, DirectionFlags::UP());
    // opposite keys cancel out
    let start = DirectionFlags::new(Direction::Up);
    let once = start.with_exclusive_axis_direction(Direction::Left);
    let twice = once.with_exclusive_axis_direction(Direction::Right);
    assert_eq!(twice, start);
}

#[test]
fn push_exclusive_axis_direction_steps() {
    let mut keys = DirectionFlags::empty();
    keys.push_exclusive_axis_direction(Direction::Front);
    assert_eq!(keys, DirectionFlags::FRONT());
    keys.push_exclusive_axis_direction(Direction::Back);
    assert_eq!(keys, DirectionFlags::empty());
    keys.push_exclusive_axis_direction(Direction::Back);
    keys.push_exclusive_axis_direction(Direction::Back);
    assert_eq!(keys, DirectionFlags::BACK());
    // unknown bits are kept
    let mut odd = DirectionFlags::from_bits_retain(0b1000_0000);
    odd.push_exclusive_axis_direction(Direction::Up);
    assert_eq!(odd.bits(), 0b1000_0001);
}

#[test]
fn lowest_flag_doc() {
    let my_set = DirectionFlags::empty() | Direction::Left | Direction::Front;

    assert_eq!(my_set.lowest_flag(), Some(Direction::Front));
}

#[test]
fn lowest_flag_edges() {
    assert_eq!(DirectionFlags::empty().lowest_flag(), None);
    assert_eq!(DirectionFlags::all().lowest_flag(), Some(Direction::Up));
    assert_eq!(DirectionFlags::BACK().lowest_flag(), Some(Direction::Back));
    assert_eq!(DirectionFlags::MASK_X().lowest_flag(), Some(Direction::Right));
}

#[test]
fn named_flags_bits() {
    assert_eq!(DirectionFlags::UP().bits(), 1);
    assert_eq!(DirectionFlags::RIGHT().bits(), 2);
    assert_eq!(DirectionFlags::FRONT().bits(), 4);
    assert_eq!(DirectionFlags::DOWN().bits(), 8);
    assert_eq!(DirectionFlags::LEFT().bits(), 16);
    assert_eq!(DirectionFlags::BACK().bits(), 32);
    assert_eq!(DirectionFlags::MASK_X(), DirectionFlags::LEFT() | DirectionFlags::RIGHT());
    assert_eq!(DirectionFlags::MASK_Y(), DirectionFlags::UP() | DirectionFlags::DOWN());
    assert_eq!(DirectionFlags::MASK_Z(), DirectionFlags::FRONT() | DirectionFlags::BACK());
    assert_eq!(DirectionFlags::MASK_XZ(), DirectionFlags::MASK_X() | DirectionFlags::MASK_Z());
    assert_eq!(DirectionFlags::all().bits(), 0b11_1111);
    assert_eq!(DirectionFlags::default(), DirectionFlags::empty());
}

#[test]
fn new_and_from_axes() {
    for d in Direction::VARIANT_ARRAY {
        let f = DirectionFlags::new(d);
        assert_eq!(f.bits(), 1u8 << u8::from(d));
        assert_eq!(DirectionFlags::from(d), f);
        for e in Direction::VARIANT_ARRAY {
            assert_eq!(f.contains_direction(e), d == e);
        }
    }
    assert_eq!(DirectionFlags::from_signed_axis_rh(SignedAxis::ZPos), DirectionFlags::BACK());
    assert_eq!(DirectionFlags::from_signed_axis_lh(SignedAxis::ZPos), DirectionFlags::FRONT());
    assert_eq!(DirectionFlags::from_signed_axis_rh(SignedAxis::XNeg), DirectionFlags::LEFT());
    assert_eq!(DirectionFlags::from_axis_mask(Axis::Y), DirectionFlags::MASK_Y());
}

#[test]
fn bits_constructors() {
    assert_eq!(DirectionFlags::from_bits(0b11_1111), Some(DirectionFlags::all()));
    assert_eq!(DirectionFlags::from_bits(0b0100_0000), None);
    assert_eq!(DirectionFlags::from_bits_truncate(0b1100_0011).bits(), 0b11);
    assert_eq!(DirectionFlags::from_bits_retain(0b1100_0011).bits(), 0b1100_0011);
    assert!(DirectionFlags::from_bits_retain(0b1000_0000).contains_unknown_bits_const());
    assert!(!DirectionFlags::all().contains_unknown_bits_const());
}

#[test]
fn set_operations() {
    let a = DirectionFlags::UP() | DirectionFlags::LEFT();
    let b = DirectionFlags::LEFT() | DirectionFlags::BACK();
    assert_eq!(a.union(b).bits(), 0b11_0001);
    assert_eq!(a.intersection(b), DirectionFlags::LEFT());
    assert_eq!(a.difference(b), DirectionFlags::UP());
    assert_eq!(a.symmetric_difference(b), DirectionFlags::UP() | DirectionFlags::BACK());
    assert_eq!(a.complement().bits(), 0b10_1110);
    assert_eq!(!a, a.complement());
    assert_eq!(a - b, DirectionFlags::UP());
    assert_eq!(a & b, DirectionFlags::LEFT());
    assert_eq!(a ^ b, a.symmetric_difference(b));
    assert!(a.contains(DirectionFlags::LEFT()));
    assert!(!a.contains(b));
    assert!(a.intersects(b));
    assert!(!a.intersects(DirectionFlags::FRONT()));
    assert!(DirectionFlags::empty().is_empty());
    assert!(!a.is_empty());
    assert!(!DirectionFlags::from_bits_retain(0b1000_0000).is_empty());
    assert!(DirectionFlags::all().is_all());
    assert!(!a.is_all());
    assert!(DirectionFlags::from_bits_retain(0xFF).is_all());
}

#[test]
fn set_mutations() {
    let mut f = DirectionFlags::empty();
    f.insert(DirectionFlags::UP());
    assert_eq!(f, DirectionFlags::UP());
    f.toggle(DirectionFlags::MASK_Y());
    assert_eq!(f, DirectionFlags::DOWN());
    f.set(DirectionFlags::LEFT(), true);
    assert_eq!(f, DirectionFlags::DOWN() | DirectionFlags::LEFT());
    f.set(DirectionFlags::DOWN(), false);
    assert_eq!(f, DirectionFlags::LEFT());
    f.remove(DirectionFlags::LEFT());
    assert!(f.is_empty());
    f |= DirectionFlags::MASK_X();
    f &= DirectionFlags::RIGHT();
    assert_eq!(f, DirectionFlags::RIGHT());
    f ^= DirectionFlags::MASK_X();
    assert_eq!(f, DirectionFlags::LEFT());
    f -= DirectionFlags::LEFT();
    assert!(f.is_empty());
}

#[test]
fn direction_operators() {
    let mut f = DirectionFlags::empty() | Direction::Up;
    assert_eq!(f, DirectionFlags::UP());
    f ^= Direction::Down;
    assert_eq!(f, DirectionFlags::MASK_Y());
    f &= Direction::Down;
    assert_eq!(f, DirectionFlags::DOWN());
    f |= Direction::Front;
    assert_eq!(f & Direction::Front, DirectionFlags::FRONT());
    assert_eq!(f ^ Direction::Front, DirectionFlags::DOWN());
}

#[test]
fn direction_queries() {
    let f = DirectionFlags::UP() | DirectionFlags::DOWN() | DirectionFlags::LEFT();
    assert!(f.contains_direction(Direction::Up));
    assert!(!f.contains_direction(Direction::Right));
    assert!(!f.contains_direction_exclusive_axis(Direction::Up));
    assert!(f.contains_direction_exclusive_axis(Direction::Left));
    assert!(!f.contains_direction_exclusive_axis(Direction::Right));
    assert_eq!(f.union_direction(Direction::Back).bits(), 0b11_1001);
    assert_eq!(f.intersection_direction(Direction::Left), DirectionFlags::LEFT());
    assert_eq!(f.intersection_direction(Direction::Front), DirectionFlags::empty());
    assert_eq!(f.difference_direction(Direction::Up), DirectionFlags::DOWN() | DirectionFlags::LEFT());
    assert_eq!(f.symmetric_difference_direction(Direction::Up), DirectionFlags::DOWN() | DirectionFlags::LEFT());
    assert_eq!(f.symmetric_difference_direction(Direction::Front).bits(), 0b01_1101);
    let mut g = f;
    g.remove_direction(Direction::Down);
    assert_eq!(g, DirectionFlags::UP() | DirectionFlags::LEFT());
}

#[test]
fn axis_queries() {
    let f = DirectionFlags::UP() | DirectionFlags::LEFT() | DirectionFlags::from_bits_retain(0b1000_0000);
    assert!(f.intersects_axis(Axis::X));
    assert!(f.intersects_axis(Axis::Y));
    assert!(!f.intersects_axis(Axis::Z));
    assert_eq!(f.intersection_axis(Axis::X), DirectionFlags::LEFT());
    assert_eq!(f.intersection_axis(Axis::Z), DirectionFlags::empty());
}

#[test]
fn signums() {
    let f = DirectionFlags::LEFT() | DirectionFlags::UP() | DirectionFlags::FRONT();
    assert_eq!(f.signum_x_rh(), -1);
    assert_eq!(f.signum_x_lh(), -1);
    assert_eq!(f.signum_y_rh(), 1);
    assert_eq!(f.signum_y_lh(), 1);
    assert_eq!(f.signum_z_rh(), -1);
    assert_eq!(f.signum_z_lh(), 1);
    let both = DirectionFlags::MASK_X() | DirectionFlags::BACK();
    assert_eq!(both.signum_x_rh(), 0);
    assert_eq!(both.signum_y_rh(), 0);
    assert_eq!(both.signum_z_rh(), 1);
    assert_eq!(both.signum_z_lh(), -1);
    assert_eq!(DirectionFlags::RIGHT().signum_x_rh(), 1);
    assert_eq!(DirectionFlags::DOWN().signum_y_lh(), -1);
}

#[test]
fn directions_iter_in_order() {
    let f = DirectionFlags::BACK() | DirectionFlags::UP() | DirectionFlags::LEFT();
    let mut it = f.into_directions_iter();
    assert_eq!(it.next(), Some(Direction::Up));
    assert_eq!(it.next(), Some(Direction::Left));
    assert_eq!(it.next(), Some(Direction::Back));
    assert_eq!(it.next(), None);
    assert_eq!(it.next(), None);
    assert_eq!(f.into_directions_iter().count(), 3);

    let mut all = DirectionFlags::all().into_directions_iter();
    for d in Direction::VARIANT_ARRAY {
        assert_eq!(all.next(), Some(d));
    }
    assert_eq!(all.next(), None);
    assert_eq!(DirectionFlags::empty().into_directions_iter().count(), 0);
}

#[test]
fn directions_iter_with_unknown_bits() {
    let f = DirectionFlags::from_bits_retain(0b1100_0100);
    assert_eq!(f.into_directions_iter().count(), 2);
    assert_eq!(DirectionFlags::from_bits_retain(0b1000_0000).into_directions_iter().count(), 1);
    let mut it = f.into_directions_iter();
    assert_eq!(it.next(), Some(Direction::Front));
    assert_eq!(it.next(), None);
    assert_eq!(it.next(), None);
    assert_eq!(it.count(), 0);
}

#[test]
fn display_as_hex() {
    assert_eq!(DirectionFlags::empty().to_string(), "00");
    assert_eq!(DirectionFlags::all().to_string(), "3F");
    assert_eq!(DirectionFlags::LEFT().to_string(), "10");
    assert_eq!(DirectionFlags::from_bits_retain(0xAB).to_string(), "AB");
    assert_eq!(DirectionFlags::MASK_XZ().to_string(), "36");
}
