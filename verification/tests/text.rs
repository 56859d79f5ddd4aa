use clamped::decimal::{decimal_signed, decimal_unsigned};
use clamped::{
    ClampedI8, ClampedI8From, ClampedU8, ClampedU8From, ClampedU8Inclusive, ClampedU8To,
    ClampedU8ToInclusive, ClampedUsize, OutOfBounds, OutOfBoundsFrom, OutOfBoundsInclusive,
    OutOfBoundsTo, OutOfBoundsToInclusive, Primitive,
};

#[test]
fn decimal_text_of_unsigned() {
    assert_eq!(decimal_unsigned(0), "0");
    assert_eq!(decimal_unsigned(7), "7");
    assert_eq!(decimal_unsigned(10), "10");
    assert_eq!(decimal_unsigned(1234567890), "1234567890");
    assert_eq!(decimal_unsigned(u128::MAX), u128::MAX.to_string());
}

#[test]
fn decimal_text_of_signed() {
    assert_eq!(decimal_signed(0), "0");
    assert_eq!(decimal_signed(-1), "-1");
    assert_eq!(decimal_signed(-120), "-120");
    assert_eq!(decimal_signed(i128::MAX), i128::MAX.to_string());
    assert_eq!(decimal_signed(i128::MIN), i128::MIN.to_string());
}

#[test]
fn decimal_text_of_each_width() {
    assert_eq!(200u8.to_decimal(), "200");
    assert_eq!(u16::MAX.to_decimal(), "65535");
    assert_eq!(u32::MAX.to_decimal(), "4294967295");
    assert_eq!(u64::MAX.to_decimal(), "18446744073709551615");
    assert_eq!(usize::MAX.to_decimal(), usize::MAX.to_string());
    assert_eq!(i8::MIN.to_decimal(), "-128");
    assert_eq!(i16::MIN.to_decimal(), "-32768");
    assert_eq!(i32::MIN.to_decimal(), "-2147483648");
    assert_eq!(i64::MIN.to_decimal(), "-9223372036854775808");
    assert_eq!(isize::MIN.to_decimal(), isize::MIN.to_string());
    assert!(3u8.below(4));
    assert!(!4u8.below(4));
    assert!((-1i8).below(0));
}

#[test]
fn debug_shows_the_bounds() {
    let narrow = ClampedU8::<5, 10>::try_from(5).unwrap();
    let wide = ClampedU8::<0, 100>::try_from(5).unwrap();
    assert_eq!(format!("{:?}", narrow), "ClampedU8<5, 10>(5)");
    assert_eq!(format!("{:?}", wide), "ClampedU8<0, 100>(5)");
    assert_ne!(format!("{:?}", narrow), format!("{:?}", wide));
    assert_eq!(narrow.label(), "ClampedU8<5, 10>(5)");
}

#[test]
fn debug_of_each_shape() {
    assert_eq!(format!("{:?}", ClampedU8::<10, 20>::try_from(15).unwrap()), "ClampedU8<10, 20>(15)");
    assert_eq!(format!("{:?}", ClampedU8From::<10>::try_from(15).unwrap()), "ClampedU8From<10>(15)");
    assert_eq!(
        format!("{:?}", ClampedU8Inclusive::<10, 20>::try_from(20).unwrap()),
        "ClampedU8Inclusive<10, 20>(20)"
    );
    assert_eq!(format!("{:?}", ClampedU8To::<10>::try_from(9).unwrap()), "ClampedU8To<10>(9)");
    assert_eq!(
        format!("{:?}", ClampedU8ToInclusive::<10>::try_from(10).unwrap()),
        "ClampedU8ToInclusive<10>(10)"
    );
    assert_eq!(format!("{:?}", ClampedUsize::<5, 10>::try_from(5).unwrap()), "ClampedUsize<5, 10>(5)");
    assert_eq!(format!("{:?}", ClampedI8::<246, 10>::try_from(-3).unwrap()), "ClampedI8<-10, 10>(-3)");
    assert_eq!(format!("{:?}", ClampedI8From::<128>::try_from(-128).unwrap()), "ClampedI8From<-128>(-128)");
}

#[test]
fn display_of_a_bounded_value_is_the_plain_integer() {
    assert_eq!(format!("{}", ClampedUsize::<5, 10>::try_from(5).unwrap()), "5");
    assert_eq!(ClampedI8::<246, 10>::try_from(-3).unwrap().to_string(), "-3");
}

#[test]
fn sentences_name_the_range() {
    let e = OutOfBounds { lower: 5usize, upper: 10, given: 4 };
    assert_eq!(e.to_string(), "The value 4 is not in the half-open range 5..10");
    assert_eq!(e.message(), "The value 4 is not in the half-open range 5..10");
    let e = OutOfBoundsFrom { lower: 10u8, given: 9 };
    assert_eq!(e.to_string(), "The value 9 is not in the inclusive range 10..");
    assert_eq!(e.message(), e.to_string());
    let e = OutOfBoundsInclusive { lower: -10i8, upper: 20, given: 21 };
    assert_eq!(e.to_string(), "The value 21 is not in the inclusive range -10..=20");
    assert_eq!(e.message(), e.to_string());
    let e = OutOfBoundsTo { upper: 10u64, given: 11 };
    assert_eq!(e.to_string(), "The value 11 is not in the exclusive range ..10");
    assert_eq!(e.message(), e.to_string());
    let e = OutOfBoundsToInclusive { upper: 10i32, given: 11 };
    assert_eq!(e.to_string(), "The value 11 is not in the inclusive range ..=10");
    assert_eq!(e.message(), e.to_string());
}

#[test]
fn record_of_a_refusal_reads_back() {
    let e = ClampedUsize::<5, 10>::try_from(4).unwrap_err();
    assert_eq!(e.lower, 5);
    assert_eq!(e.upper, 10);
    assert_eq!(e.given, 4);
    assert_eq!(e.to_string(), "The value 4 is not in the half-open range 5..10");
    assert_eq!(format!("{:?}", e), "OutOfBounds { lower: 5, upper: 10, given: 4 }");
}
