use approx_cmp::approx_eq::ApproxEq;

#[test]
fn approx_eq() {
    assert_eq!((1u32).approx_eq(&1u32), true);
}

#[test]
fn tolerant_comparison() {
    assert_eq!((3u32).approx_eq_tolerance(&7u32, &5u32), true);
    assert_eq!((1u32).approx_eq_tolerance(&10u32, &5u32), false);
    assert_eq!((-2i32).approx_eq_tolerance(&2i32, &5i32), true);
    assert_eq!((-2i32).approx_eq_tolerance(&4i32, &5i32), false);
}

#[test]
fn tolerance_boundary_is_exclusive() {
    assert_eq!((10u32).approx_eq_tolerance(&7u32, &3u32), false);
    assert_eq!((10u32).approx_eq_tolerance(&7u32, &4u32), true);
    assert_eq!((0i16).approx_eq_tolerance(&100i16, &100i16), false);
    assert_eq!((0i16).approx_eq_tolerance(&100i16, &101i16), true);
}

#[test]
fn zero_tolerance_admits_nothing() {
    assert_eq!((5u32).approx_eq_tolerance(&5u32, &0u32), false);
    assert_eq!((5i64).approx_eq_tolerance(&5i64, &0i64), false);
    assert_eq!((0usize).approx_eq_tolerance(&0usize, &0usize), false);
}

#[test]
fn negative_tolerance_admits_nothing() {
    assert_eq!((5i32).approx_eq_tolerance(&5i32, &-1i32), false);
    assert_eq!((5i32).approx_ne_tolerance(&5i32, &-1i32), true);
    assert_eq!((-4i8).approx_eq_tolerance(&-4i8, &-128i8), false);
}

#[test]
fn integer_default_is_exact() {
    assert_eq!((5u32).approx_eq(&5u32), true);
    assert_eq!((5u32).approx_eq(&6u32), false);
    assert_eq!((1u8).approx_eq(&1u8), true);
    assert_eq!((-11i64).approx_eq(&-11i64), true);
    assert_eq!((3isize).approx_eq(&-3isize), false);
    assert_eq!((8u64).approx_eq(&8u64), true);
    assert_eq!((2u16).approx_eq(&3u16), false);
    assert_eq!((-1i16).approx_eq(&-1i16), true);
    assert_eq!((0i8).approx_eq(&0i8), true);
    assert_eq!((12usize).approx_eq(&12usize), true);
    assert_eq!((5i32).approx_eq(&5i32), true);
}

#[test]
fn negation_consistency_tolerant() {
    assert_eq!((3u32).approx_ne_tolerance(&7u32, &5u32), false);
    assert_eq!((1u32).approx_ne_tolerance(&10u32, &5u32), true);
    assert_eq!((5u32).approx_ne(&5u32), false);
    assert_eq!((5u32).approx_ne(&6u32), true);
    assert_eq!((-2i32).approx_ne_tolerance(&2i32, &5i32), false);
}

#[test]
fn symmetry_of_tolerant_comparison() {
    assert_eq!(
        (3u32).approx_eq_tolerance(&7u32, &5u32),
        (7u32).approx_eq_tolerance(&3u32, &5u32)
    );
    assert_eq!(
        (1i32).approx_eq_tolerance(&-10i32, &5i32),
        (-10i32).approx_eq_tolerance(&1i32, &5i32)
    );
    assert_eq!(
        (10u8).approx_eq_tolerance(&7u8, &3u8),
        (7u8).approx_eq_tolerance(&10u8, &3u8)
    );
}

#[test]
fn extreme_operands_do_not_wrap() {
    assert_eq!(i64::MAX.approx_eq_tolerance(&i64::MIN, &i64::MAX), false);
    assert_eq!(i32::MAX.approx_eq_tolerance(&i32::MIN, &i32::MAX), false);
    assert_eq!((-128i8).approx_eq_tolerance(&127i8, &127i8), false);
    assert_eq!(u64::MAX.approx_eq_tolerance(&0u64, &u64::MAX), false);
    assert_eq!(u64::MAX.approx_eq_tolerance(&(u64::MAX - 1), &2u64), true);
    assert_eq!(isize::MAX.approx_eq_tolerance(&isize::MIN, &isize::MAX), false);
    assert_eq!(usize::MAX.approx_eq_tolerance(&0usize, &usize::MAX), false);
}
