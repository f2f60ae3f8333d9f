use directionlib::{Direction, DirectionFlags};

#[test]
fn direction_reverse() {
    let current = Direction::Front;
    assert_eq!(current.reverse(), Direction::Back);

    let vertical = Direction::Down;
    assert_eq!(vertical.reverse(), Direction::Up);
    assert_eq!(-Direction::Left, Direction::Right);
    for d in Direction::VARIANT_ARRAY {
        assert_eq!(d.reverse().reverse(), d);
        assert_ne!(d.reverse(), d);
    }
}

#[test]
fn direction_to_flags() {
    let current = Direction::Left;
    assert_eq!(current.to_flags(), DirectionFlags::LEFT());
    let up = Direction::Up;
    let down = Direction::Down;
    // we also overload the operator
    let all_y = up.to_flags() | down;
    assert_eq!(all_y, DirectionFlags::MASK_Y());
}

#[test]
fn direction_repr() {
    assert_eq!(Direction::COUNT, 6);
    assert_eq!(Direction::from_repr(0), Direction::Up);
    assert_eq!(Direction::from_repr(5), Direction::Back);
    assert_eq!(Direction::try_from_repr(2), Some(Direction::Front));
    assert_eq!(Direction::try_from_repr(6), None);
    assert_eq!(Direction::try_from_repr(200), None);
    for (i, d) in Direction::VARIANT_ARRAY.iter().enumerate() {
        assert_eq!(u8::from(*d) as usize, i);
        assert_eq!(Direction::from_repr(i as u8), *d);
    }
    assert_eq!(u16::from(Direction::Left), 4);
    assert_eq!(i32::from(Direction::Back), 5);
    assert_eq!(i64::from(Direction::Right), 1);
    assert_eq!(u32::from(Direction::Down), 3);
    assert_eq!(i128::from(Direction::Front), 2);
}

#[test]
fn direction_names() {
    assert_eq!(Direction::Up.to_str(), "Up");
    assert_eq!(Direction::Front.to_str(), "Front");
    assert_eq!(Direction::Back.to_str(), "Back");
    assert_eq!(Direction::VARIANT_NAMES, ["Up", "Right", "Front", "Down", "Left", "Back"]);
    assert_eq!(Direction::VARIANTS_OPPOSITE[2], Direction::Back);
}

#[test]
fn direction_display_names() {
    assert_eq!(Direction::Left.to_string(), "Left");
    assert_eq!(Direction::Down.to_string(), "Down");
}
