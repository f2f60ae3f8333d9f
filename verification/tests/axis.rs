use directionlib::{Axis, Direction, DirectionFlags, SignedAxis};

#[test]
fn signed_axis_reverse() {
    let current = SignedAxis::XPos;
    assert_eq!(current.reverse(), SignedAxis::XNeg);
    assert_eq!(current.reverse(), -current);

    let vertical = SignedAxis::ZNeg;
    assert_eq!(vertical.reverse(), SignedAxis::ZPos);
}

#[test]
fn signed_axis_reverse_twice_is_identity() {
    for a in SignedAxis::VARIANT_ARRAY {
        assert_eq!(a.reverse().reverse(), a);
        assert_ne!(a.reverse(), a);
        assert_eq!(a.reverse().to_unsigned(), a.to_unsigned());
        assert_eq!(a.reverse().is_positive(), !a.is_positive());
    }
}

#[test]
fn signed_axis_to_unsigned() {
    assert_eq!(SignedAxis::XPos.to_unsigned(), Axis::X);
    assert_eq!(SignedAxis::YNeg.to_unsigned(), Axis::Y);
    assert_eq!(SignedAxis::ZNeg.to_unsigned(), Axis::Z);
    assert_eq!(SignedAxis::ZPos.to_unsigned(), Axis::Z);
    assert_eq!(SignedAxis::XNeg.to_unsigned(), Axis::X);
}

#[test]
fn signed_axis_abs() {
    assert_eq!(SignedAxis::XNeg.abs(), SignedAxis::XPos);
    assert_eq!(SignedAxis::YPos.abs(), SignedAxis::YPos);
    assert_eq!(SignedAxis::ZNeg.abs(), SignedAxis::ZPos);
    for a in SignedAxis::VARIANT_ARRAY {
        assert!(a.abs().is_positive());
        assert_eq!(a.abs() == a, a.is_positive());
    }
}

#[test]
fn signed_axis_is_positive() {
    let z = SignedAxis::ZPos;

    assert!(z.is_positive());
    assert!(!z.is_negative());
    assert!(u8::from(z) < u8::from(SignedAxis::YNeg));
    assert!(u8::from(z) < u8::from(SignedAxis::ZNeg));
    assert!(SignedAxis::XNeg.is_negative());
    assert!(!SignedAxis::YNeg.is_positive());
}

#[test]
fn signed_axis_to_direction_rh() {
    let down = SignedAxis::YNeg;
    assert_eq!(Direction::Down, down.to_direction_rh());
    let right = SignedAxis::XPos;
    assert_eq!(Direction::Right, right.to_direction_rh());
    let backwards = SignedAxis::ZPos;
    assert_eq!(Direction::Back, backwards.to_direction_rh());
    assert_eq!(Direction::Front, SignedAxis::ZNeg.to_direction_rh());
    assert_eq!(Direction::Left, SignedAxis::XNeg.to_direction_rh());
    assert_eq!(Direction::Up, SignedAxis::YPos.to_direction_rh());
}

#[test]
fn signed_axis_from_direction_rh() {
    let up = Direction::Up;
    assert_eq!(SignedAxis::YPos, SignedAxis::from_direction_rh(up));
    let left = Direction::Left;
    assert_eq!(SignedAxis::XNeg, SignedAxis::from_direction_rh(left));
    let forwards = Direction::Front;
    assert_eq!(SignedAxis::ZNeg, SignedAxis::from_direction_rh(forwards));
    assert_eq!(SignedAxis::ZPos, SignedAxis::from_direction_rh(Direction::Back));
}

#[test]
fn signed_axis_to_direction_lh() {
    let down = SignedAxis::YNeg;
    assert_eq!(Direction::Down, down.to_direction_lh());
    let right = SignedAxis::XPos;
    assert_eq!(Direction::Right, right.to_direction_lh());
    let backwards = SignedAxis::ZNeg;
    assert_eq!(Direction::Back, backwards.to_direction_lh());
    assert_eq!(Direction::Front, SignedAxis::ZPos.to_direction_lh());
}

#[test]
fn signed_axis_from_direction_lh() {
    let up = Direction::Up;
    assert_eq!(SignedAxis::YPos, SignedAxis::from_direction_lh(up));
    let left = Direction::Left;
    assert_eq!(SignedAxis::XNeg, SignedAxis::from_direction_lh(left));
    let forwards = Direction::Front;
    assert_eq!(SignedAxis::ZPos, SignedAxis::from_direction_lh(forwards));
    assert_eq!(SignedAxis::ZNeg, SignedAxis::from_direction_lh(Direction::Back));
}

#[test]
fn direction_conversions_are_inverse() {
    for a in SignedAxis::VARIANT_ARRAY {
        assert_eq!(SignedAxis::from_direction_rh(a.to_direction_rh()), a);
        assert_eq!(SignedAxis::from_direction_lh(a.to_direction_lh()), a);
        assert_eq!(a.reverse().to_direction_rh(), a.to_direction_rh().reverse());
        assert_eq!(a.reverse().to_direction_lh(), a.to_direction_lh().reverse());
    }
    for d in Direction::VARIANT_ARRAY {
        assert_eq!(SignedAxis::from_direction_rh(d).to_direction_rh(), d);
        assert_eq!(SignedAxis::from_direction_lh(d).to_direction_lh(), d);
    }
}

#[test]
fn handedness_differs_on_z_only() {
    for a in SignedAxis::VARIANT_ARRAY {
        if a.to_unsigned() == Axis::Z {
            assert_eq!(a.to_direction_lh(), a.to_direction_rh().reverse());
        } else {
            assert_eq!(a.to_direction_lh(), a.to_direction_rh());
        }
    }
}

#[test]
fn signed_axis_repr() {
    assert_eq!(SignedAxis::COUNT, 6);
    assert_eq!(SignedAxis::from_repr(0), SignedAxis::XPos);
    assert_eq!(SignedAxis::from_repr(5), SignedAxis::ZNeg);
    assert_eq!(SignedAxis::try_from_repr(3), Some(SignedAxis::XNeg));
    assert_eq!(SignedAxis::try_from_repr(6), None);
    assert_eq!(SignedAxis::try_from_repr(255), None);
    for (i, a) in SignedAxis::VARIANT_ARRAY.iter().enumerate() {
        assert_eq!(usize::from(*a), i);
        assert_eq!(SignedAxis::from_repr(i as u8), *a);
    }
    assert_eq!(i8::from(SignedAxis::YNeg), 4);
    assert_eq!(u128::from(SignedAxis::ZPos), 2);
    assert_eq!(isize::from(SignedAxis::ZNeg), 5);
}

#[test]
fn signed_axis_names() {
    assert_eq!(SignedAxis::XPos.to_str(), "XPos");
    assert_eq!(SignedAxis::ZNeg.to_str(), "ZNeg");
    assert_eq!(SignedAxis::VARIANT_NAMES, ["XPos", "YPos", "ZPos", "XNeg", "YNeg", "ZNeg"]);
    assert_eq!(SignedAxis::VARIANTS_OPPOSITE[0], SignedAxis::XNeg);
}

#[test]
fn axis_cast_and_neg() {
    assert_eq!(Axis::X.cast_signed(), SignedAxis::XPos);
    assert_eq!(Axis::Y.cast_signed(), SignedAxis::YPos);
    assert_eq!(Axis::Z.cast_signed(), SignedAxis::ZPos);
    assert_eq!(-Axis::X, SignedAxis::XNeg);
    assert_eq!(-Axis::Z, SignedAxis::ZNeg);
    for x in Axis::VARIANT_ARRAY {
        assert_eq!(x.cast_signed().to_unsigned(), x);
    }
}

#[test]
fn axis_repr_and_names() {
    assert_eq!(Axis::COUNT, 3);
    assert_eq!(Axis::from_repr(1), Axis::Y);
    assert_eq!(Axis::try_from_repr(2), Some(Axis::Z));
    assert_eq!(Axis::try_from_repr(3), None);
    assert_eq!(Axis::Y.to_str(), "Y");
    assert_eq!(u64::from(Axis::Z), 2);
    assert_eq!(i16::from(Axis::X), 0);
}

#[test]
fn axis_direction_flags_mask() {
    assert_eq!(Axis::X.to_direction_flags_mask(), DirectionFlags::MASK_X());
    assert_eq!(Axis::Y.to_direction_flags_mask(), DirectionFlags::MASK_Y());
    assert_eq!(Axis::Z.to_direction_flags_mask(), DirectionFlags::MASK_Z());
    assert_eq!(Axis::X.to_direction_flags_mask().bits(), 0b010010);
    for a in SignedAxis::VARIANT_ARRAY {
        let mask = a.to_unsigned().to_direction_flags_mask();
        assert!(mask.contains_direction(a.to_direction_rh()));
        assert!(mask.contains_direction(a.to_direction_lh()));
    }
}

#[test]
fn axis_display_names() {
    assert_eq!(SignedAxis::YNeg.to_string(), "YNeg");
    assert_eq!(Axis::X.to_string(), "X");
    assert_eq!(Axis::Z.to_str(), "Z");
}
