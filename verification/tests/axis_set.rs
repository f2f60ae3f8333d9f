use core::mem::MaybeUninit;

use directionlib::{Axis, AxisIndex, SignedAxis, SignedAxisIndex, SignedAxisSet};

fn sample() -> SignedAxisSet<i32> {
    SignedAxisSet { pos_x: 1, neg_x: -1, pos_y: 2, neg_y: -2, pos_z: 3, neg_z: -3 }
}

#[test]
fn splat_fills_every_field() {
    let s = SignedAxisSet::splat(7u8);
    assert_eq!(s.into_array(), [7; 6]);
    let axes = SignedAxisSet::AXES();
    assert_eq!(axes.pos_x, SignedAxis::XPos);
    assert_eq!(axes.neg_z, SignedAxis::ZNeg);
}

#[test]
fn splat_with_calls_per_axis() {
    let s = SignedAxisSet::splat_with(|a| u8::from(a) * 10);
    assert_eq!(s.into_array(), [0, 10, 20, 30, 40, 50]);
    let mut calls = 0;
    let t = SignedAxisSet::splat_with(|a| {
        calls += 1;
        a.is_positive()
    });
    assert_eq!(calls, 6);
    assert!(t.pos_y && !t.neg_y);
}

#[test]
fn as_ref_and_as_mut() {
    let mut s = sample();
    let r = s.as_ref();
    assert_eq!(*r.neg_y, -2);
    let m = s.as_mut();
    *m.pos_z = 30;
    *m.neg_x = -10;
    assert_eq!(s.pos_z, 30);
    assert_eq!(s.neg_x, -10);
}

#[test]
fn zip_and_map() {
    let s = sample();
    let z = s.zip(SignedAxisSet::AXES());
    assert_eq!(z.neg_y, (-2, SignedAxis::YNeg));
    let m = s.map(|a, v| if a.is_positive() { v * 100 } else { v });
    assert_eq!(m.into_array(), [100, 200, 300, -1, -2, -3]);
    let o = s.into_optional();
    assert_eq!(o.pos_x, Some(1));
    assert_eq!(o.neg_z, Some(-3));
}

#[test]
fn for_each_variants() {
    let s = sample();
    let mut sum = 0;
    s.for_each(|_, v| sum += v);
    assert_eq!(sum, 0);
    let mut seen = Vec::new();
    s.for_each_ref(|a, v| seen.push((a, *v)));
    assert_eq!(seen.len(), 6);
    assert!(seen.contains(&(SignedAxis::ZNeg, -3)));
    let mut t = s;
    t.for_each_mut(|a, v| {
        if a.is_negative() {
            *v = 0;
        }
    });
    assert_eq!(t.into_array(), [1, 2, 3, 0, 0, 0]);
}

#[test]
fn try_for_each_stops_on_error() {
    let s = sample();
    assert_eq!(s.try_for_each(|_, _| Ok::<(), ()>(())), Ok(()));
    let mut visited = 0;
    let r = s.try_for_each(|a, v| {
        visited += 1;
        if *v < 0 { Err(a) } else { Ok(()) }
    });
    assert_eq!(r, Err(SignedAxis::XNeg));
    assert_eq!(visited, 2);
}

#[test]
fn arrays_follow_axis_order() {
    let s = sample();
    let refs = s.as_ref_array();
    for a in SignedAxis::VARIANT_ARRAY {
        assert_eq!(*refs[usize::from(a)], s.signed_axis_index(a));
    }
    assert_eq!(s.into_array(), [1, 2, 3, -1, -2, -3]);
    let mut t = s;
    let muts = t.as_mut_array();
    *muts[usize::from(SignedAxis::YNeg)] = 99;
    assert_eq!(t.neg_y, 99);
}

#[test]
fn take_leaves_none() {
    let mut o = sample().into_optional();
    assert_eq!(o.take(SignedAxis::YPos), Some(2));
    assert_eq!(o.take(SignedAxis::YPos), None);
    assert_eq!(o.pos_y, None);
    assert_eq!(o.neg_y, Some(-2));
}

#[test]
fn into_iter_in_axis_order() {
    let mut it = sample().into_iter();
    assert_eq!(it.next(), Some(1));
    assert_eq!(it.next(), Some(2));
    assert_eq!(it.next(), Some(3));
    assert_eq!(it.next(), Some(-1));
    assert_eq!(it.next(), Some(-2));
    assert_eq!(it.next(), Some(-3));
    assert_eq!(it.next(), None);
    assert_eq!(it.next(), None);
}

#[test]
fn maybe_uninit_sets() {
    let s = SignedAxisSet::<MaybeUninit<u8>>::new(SignedAxisSet::splat(5u8));
    assert_eq!(s.into_array().len(), 6);
    let u = SignedAxisSet::<MaybeUninit<u8>>::uninit();
    assert_eq!(u.as_ref_array().len(), 6);
}

#[test]
fn elementwise_operators() {
    let a = sample();
    let b = SignedAxisSet::splat(2i32);
    assert_eq!((a + b).into_array(), [3, 4, 5, 1, 0, -1]);
    assert_eq!((a - b).into_array(), [-1, 0, 1, -3, -4, -5]);
    assert_eq!((a * b).into_array(), [2, 4, 6, -2, -4, -6]);
    assert_eq!((a / b).into_array(), [0, 1, 1, 0, -1, -1]);
    assert_eq!((a % b).into_array(), [1, 0, 1, -1, 0, -1]);
    let m = SignedAxisSet::splat(0b1100u8);
    let n = SignedAxisSet::splat(0b1010u8);
    assert_eq!((m & n).pos_x, 0b1000);
    assert_eq!((m | n).neg_x, 0b1110);
    assert_eq!((m ^ n).pos_z, 0b0110);
    assert_eq!((m << SignedAxisSet::splat(1u32)).neg_y, 0b11000);
    assert_eq!((m >> SignedAxisSet::splat(2u32)).pos_y, 0b11);
}

#[test]
fn elementwise_assign_operators() {
    let mut a = sample();
    a += SignedAxisSet::splat(1);
    assert_eq!(a.into_array(), [2, 3, 4, 0, -1, -2]);
    a -= SignedAxisSet::splat(2);
    assert_eq!(a.into_array(), [0, 1, 2, -2, -3, -4]);
    a *= SignedAxisSet::splat(3);
    assert_eq!(a.into_array(), [0, 3, 6, -6, -9, -12]);
    a /= SignedAxisSet::splat(3);
    assert_eq!(a.into_array(), [0, 1, 2, -2, -3, -4]);
    a %= SignedAxisSet::splat(2);
    assert_eq!(a.into_array(), [0, 1, 0, 0, -1, 0]);
    let mut m = SignedAxisSet::splat(0b1100u8);
    m &= SignedAxisSet::splat(0b0110);
    assert_eq!(m.pos_x, 0b0100);
    m |= SignedAxisSet::splat(0b0001);
    assert_eq!(m.neg_x, 0b0101);
    m ^= SignedAxisSet::splat(0b0011);
    assert_eq!(m.pos_y, 0b0110);
    m <<= SignedAxisSet::splat(1u32);
    assert_eq!(m.neg_y, 0b1100);
    m >>= SignedAxisSet::splat(2u32);
    assert_eq!(m.pos_z, 0b0011);
}

#[test]
fn axis_index_traits() {
    let s = sample();
    assert_eq!(s.axis_x(), 1);
    assert_eq!(s.axis_index(Axis::Z), 3);
    assert_eq!(s.axis_neg_y(), -2);
    assert_eq!(s.axis_pos_z(), 3);
    assert_eq!(s.signed_axis_index(SignedAxis::XNeg), -1);
    let r = &s;
    assert_eq!(*<&SignedAxisSet<i32> as AxisIndex>::axis_y(&r), 2);
    assert_eq!(*<&SignedAxisSet<i32> as SignedAxisIndex>::signed_axis_index(&r, SignedAxis::ZNeg), -3);
    assert_eq!(*<&SignedAxisSet<i32> as AxisIndex>::axis_index(&r, Axis::X), 1);
    assert_eq!(*<&SignedAxisSet<i32> as SignedAxisIndex>::axis_neg_x(&r), -1);
}

#[test]
fn default_set() {
    let d: SignedAxisSet<u16> = SignedAxisSet::default();
    assert_eq!(d.into_array(), [0; 6]);
}
