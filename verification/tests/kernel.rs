use clamped::bits::{
    i128_from_bits, i16_from_bits, i32_from_bits, i64_from_bits, i8_from_bits, isize_from_bits,
};
use clamped::range::{
    check_range, check_range_from, check_range_inclusive, check_range_to, check_range_to_inclusive,
};
use clamped::{
    OutOfBounds, OutOfBoundsFrom, OutOfBoundsInclusive, OutOfBoundsTo, OutOfBoundsToInclusive,
};

#[test]
fn bit_patterns_of_signed_bounds() {
    assert_eq!(i8_from_bits(0), 0);
    assert_eq!(i8_from_bits(127), 127);
    assert_eq!(i8_from_bits(128), -128);
    assert_eq!(i8_from_bits(246), -10);
    assert_eq!(i8_from_bits(255), -1);
    for bits in 0u8..=255 {
        assert_eq!(i8_from_bits(bits), bits as i8);
    }
    assert_eq!(i16_from_bits(0x8000), i16::MIN);
    assert_eq!(i16_from_bits(0xffff), -1);
    assert_eq!(i32_from_bits(0x7fff_ffff), i32::MAX);
    assert_eq!(i32_from_bits(0x8000_0000), i32::MIN);
    assert_eq!(i64_from_bits(u64::MAX), -1);
    assert_eq!(i64_from_bits(1 << 63), i64::MIN);
    assert_eq!(i128_from_bits(u128::MAX), -1);
    assert_eq!(i128_from_bits(1 << 127), i128::MIN);
    assert_eq!(i128_from_bits((1 << 127) - 1), i128::MAX);
    assert_eq!(isize_from_bits(usize::MAX), -1);
    assert_eq!(isize_from_bits(usize::MAX / 2), isize::MAX);
    assert_eq!(isize_from_bits(usize::MAX / 2 + 1), isize::MIN);
    assert_eq!(isize_from_bits((-7isize) as usize), -7);
}

#[test]
fn half_open_test() {
    assert_eq!(check_range(10u8, 20, 9), Err(OutOfBounds { lower: 10, upper: 20, given: 9 }));
    assert_eq!(check_range(10u8, 20, 10), Ok(10));
    assert_eq!(check_range(10u8, 20, 19), Ok(19));
    assert_eq!(check_range(10u8, 20, 20), Err(OutOfBounds { lower: 10, upper: 20, given: 20 }));
    assert_eq!(check_range(-5i64, 5, -5), Ok(-5));
    assert_eq!(check_range(-5i64, 5, -6), Err(OutOfBounds { lower: -5, upper: 5, given: -6 }));
}

#[test]
fn one_sided_and_inclusive_tests() {
    assert_eq!(check_range_from(10u16, 9), Err(OutOfBoundsFrom { lower: 10, given: 9 }));
    assert_eq!(check_range_from(10u16, 10), Ok(10));
    assert_eq!(check_range_from(10u16, u16::MAX), Ok(u16::MAX));
    assert_eq!(
        check_range_inclusive(10i32, 20, 21),
        Err(OutOfBoundsInclusive { lower: 10, upper: 20, given: 21 })
    );
    assert_eq!(check_range_inclusive(10i32, 20, 20), Ok(20));
    assert_eq!(check_range_inclusive(10i32, 20, 10), Ok(10));
    assert_eq!(
        check_range_inclusive(10i32, 20, 9),
        Err(OutOfBoundsInclusive { lower: 10, upper: 20, given: 9 })
    );
    assert_eq!(check_range_to(10usize, 9), Ok(9));
    assert_eq!(check_range_to(10usize, 10), Err(OutOfBoundsTo { upper: 10, given: 10 }));
    assert_eq!(check_range_to_inclusive(10i128, 10), Ok(10));
    assert_eq!(
        check_range_to_inclusive(10i128, 11),
        Err(OutOfBoundsToInclusive { upper: 10, given: 11 })
    );
}
