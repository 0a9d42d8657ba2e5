use approx_cmp::approx::Approx;

#[test]
fn approx() {
    assert_eq!((1u32).approx_eq(1u32), true);
}

#[test]
fn exact_reflexivity_all_widths() {
    assert_eq!((0u8).approx_eq(0u8), true);
    assert_eq!((65535u16).approx_eq(65535u16), true);
    assert_eq!((7u32).approx_eq(7u32), true);
    assert_eq!(u64::MAX.approx_eq(u64::MAX), true);
    assert_eq!((42usize).approx_eq(42usize), true);
    assert_eq!((-128i8).approx_eq(-128i8), true);
    assert_eq!((-1i16).approx_eq(-1i16), true);
    assert_eq!((0i32).approx_eq(0i32), true);
    assert_eq!(i64::MIN.approx_eq(i64::MIN), true);
    assert_eq!((-9isize).approx_eq(-9isize), true);
}

#[test]
fn integer_exactness() {
    assert_eq!((5u32).approx_eq(5u32), true);
    assert_eq!((5u32).approx_eq(6u32), false);
    assert_eq!((-3i32).approx_eq(-3i32), true);
    assert_eq!((-3i32).approx_eq(3i32), false);
    assert_eq!((200u8).approx_eq(201u8), false);
    assert_eq!(i64::MAX.approx_eq(i64::MIN), false);
}

#[test]
fn negation_consistency_exact() {
    assert_eq!((5u32).approx_ne(5u32), false);
    assert_eq!((5u32).approx_ne(6u32), true);
    assert_eq!((9i8).approx_ne(-9i8), true);
    assert_eq!((0usize).approx_ne(0usize), false);
    assert_eq!((-7isize).approx_ne(7isize), true);
}
