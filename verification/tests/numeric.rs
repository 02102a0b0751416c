use column_core::numeric::NumericNative;
use column_core::numeric::numeric_native_round_trip;

#[test]
fn native_to_marker_to_native_round_trips() {
    assert_eq!(numeric_native_round_trip(7u8), 7u8);
    assert_eq!(numeric_native_round_trip(7u16), 7u16);
    assert_eq!(numeric_native_round_trip(7u32), 7u32);
    assert_eq!(numeric_native_round_trip(7u64), 7u64);
    assert_eq!(numeric_native_round_trip(-7i8), -7i8);
    assert_eq!(numeric_native_round_trip(-7i16), -7i16);
    assert_eq!(numeric_native_round_trip(-7i32), -7i32);
    assert_eq!(numeric_native_round_trip(-7i64), -7i64);
    assert_eq!(numeric_native_round_trip(-7i128), -7i128);
}

#[test]
fn identities_and_bounds() {
    assert_eq!(<u8 as NumericNative>::zero(), 0);
    assert_eq!(<u8 as NumericNative>::one(), 1);
    assert_eq!(<u8 as NumericNative>::min_value(), 0);
    assert_eq!(<u8 as NumericNative>::max_value(), 255);
    assert_eq!(<i8 as NumericNative>::min_value(), -128);
    assert_eq!(<i8 as NumericNative>::max_value(), 127);
    assert_eq!(<i64 as NumericNative>::min_value(), i64::MIN);
    assert_eq!(<u64 as NumericNative>::max_value(), u64::MAX);
    assert_eq!(<i128 as NumericNative>::zero(), 0);
}

#[test]
fn integer_natives_are_not_floats() {
    assert!(!<u8 as NumericNative>::is_float());
    assert!(!<u64 as NumericNative>::is_float());
    assert!(!<i8 as NumericNative>::is_float());
    assert!(!<i64 as NumericNative>::is_float());
    assert!(!<i128 as NumericNative>::is_float());
}

#[test]
fn ordering_and_arithmetic() {
    assert!(3i32.less_than(4));
    assert!(!4i32.less_than(3));
    assert!(4i32.less_eq(4));
    assert_eq!(3u16.add_exact(4), 7);
    assert_eq!(3i16.sub_exact(5), -2);
    assert_eq!(6i64.mul_exact(-7), -42);
    let mut x = 5u32;
    x.add_assign_exact(2);
    assert_eq!(x, 7);
    x.sub_assign_exact(3);
    assert_eq!(x, 4);
}

#[test]
fn division_truncates_toward_zero() {
    assert_eq!(7i32.div_trunc(2), 3);
    assert_eq!((-7i32).div_trunc(2), -3);
    assert_eq!(7i32.div_trunc(-2), -3);
    assert_eq!((-7i32).div_trunc(-2), 3);
    assert_eq!(7i32.rem_trunc(2), 1);
    assert_eq!((-7i32).rem_trunc(2), -1);
    assert_eq!(7i32.rem_trunc(-2), 1);
    assert_eq!((-7i32).rem_trunc(-2), -1);
    assert_eq!(9u8.div_trunc(2), 4);
    assert_eq!(9u8.rem_trunc(2), 1);
}

#[test]
fn checked_casts_succeed_exactly_in_range() {
    assert_eq!(u8::from_i128_checked(255), Some(255u8));
    assert_eq!(u8::from_i128_checked(256), None);
    assert_eq!(u8::from_i128_checked(-1), None);
    assert_eq!(i8::from_i128_checked(-128), Some(-128i8));
    assert_eq!(i8::from_i128_checked(-129), None);
    assert_eq!(i64::from_i128_checked(i64::MAX as i128), Some(i64::MAX));
    assert_eq!(i64::from_i128_checked(i64::MAX as i128 + 1), None);
    assert_eq!(NumericNative::to_i128(u64::MAX), u64::MAX as i128);
}
