use clamped::{
    ClampedI128, ClampedI16Inclusive, ClampedI32From, ClampedI64To, ClampedI8, ClampedI8Inclusive,
    ClampedI8ToInclusive, ClampedIsize, ClampedU128, ClampedU16, ClampedU32Inclusive, ClampedU64From,
    ClampedU8, ClampedU8From, ClampedU8Inclusive, ClampedU8To, ClampedU8ToInclusive, ClampedUsize,
    OutOfBounds, OutOfBoundsFrom, OutOfBoundsInclusive, OutOfBoundsTo, OutOfBoundsToInclusive,
};
use std::collections::HashSet;
use std::convert::TryFrom;

#[test]
fn half_open_boundaries() {
    type C = ClampedU8<10, 20>;
    assert_eq!(C::try_from(9).unwrap_err(), OutOfBounds { lower: 10, upper: 20, given: 9 });
    assert_eq!(C::try_from(10).unwrap().unclamp(), 10);
    assert_eq!(C::try_from(19).unwrap().unclamp(), 19);
    assert_eq!(C::try_from(20).unwrap_err(), OutOfBounds { lower: 10, upper: 20, given: 20 });
    assert_eq!(C::try_from(21).unwrap_err(), OutOfBounds { lower: 10, upper: 20, given: 21 });
}

#[test]
fn inclusive_boundaries() {
    type C = ClampedU8Inclusive<10, 20>;
    assert_eq!(
        C::try_from(9).unwrap_err(),
        OutOfBoundsInclusive { lower: 10, upper: 20, given: 9 }
    );
    assert_eq!(C::try_from(10).unwrap().unclamp(), 10);
    assert_eq!(C::try_from(20).unwrap().unclamp(), 20);
    assert_eq!(
        C::try_from(21).unwrap_err(),
        OutOfBoundsInclusive { lower: 10, upper: 20, given: 21 }
    );
}

#[test]
fn inclusive_range_of_one_value() {
    type C = ClampedU8Inclusive<7, 7>;
    assert!(C::try_from(6).is_err());
    assert_eq!(C::try_from(7).unwrap().unclamp(), 7);
    assert!(C::try_from(8).is_err());
}

#[test]
fn lower_only_boundaries() {
    type C = ClampedU8From<10>;
    assert_eq!(C::try_from(9).unwrap_err(), OutOfBoundsFrom { lower: 10, given: 9 });
    assert_eq!(C::try_from(10).unwrap().unclamp(), 10);
    assert_eq!(C::try_from(11).unwrap().unclamp(), 11);
    assert_eq!(C::try_from(255).unwrap().unclamp(), 255);
}

#[test]
fn upper_open_boundaries() {
    type C = ClampedU8To<10>;
    assert_eq!(C::try_from(0).unwrap().unclamp(), 0);
    assert_eq!(C::try_from(9).unwrap().unclamp(), 9);
    assert_eq!(C::try_from(10).unwrap_err(), OutOfBoundsTo { upper: 10, given: 10 });
    assert_eq!(C::try_from(11).unwrap_err(), OutOfBoundsTo { upper: 10, given: 11 });
}

#[test]
fn upper_inclusive_boundaries() {
    type C = ClampedU8ToInclusive<10>;
    assert_eq!(C::try_from(9).unwrap().unclamp(), 9);
    assert_eq!(C::try_from(10).unwrap().unclamp(), 10);
    assert_eq!(C::try_from(11).unwrap_err(), OutOfBoundsToInclusive { upper: 10, given: 11 });
}

#[test]
fn round_trip_inside_the_range() {
    for v in 10u8..20 {
        let c = ClampedU8::<10, 20>::try_from(v).unwrap();
        assert_eq!(u8::from(c), v);
        let back: u8 = c.into();
        assert_eq!(back, v);
        assert_eq!(c.unclamp(), v);
    }
    let wide = ClampedU128::<1, { u128::MAX }>::try_from(u128::MAX - 1).unwrap();
    assert_eq!(wide.unclamp(), u128::MAX - 1);
    let word = ClampedUsize::<5, 10>::try_from(7).unwrap();
    assert_eq!(usize::from(word), 7);
    assert_eq!(ClampedU16::<300, 400>::try_from(399).unwrap().unclamp(), 399);
    assert_eq!(ClampedU32Inclusive::<0, 0>::try_from(0).unwrap().unclamp(), 0);
    assert_eq!(ClampedU64From::<9>::try_from(u64::MAX).unwrap().unclamp(), u64::MAX);
}

#[test]
fn trait_conversion_agrees_with_the_checked_one() {
    for v in 0u8..=255 {
        let by_trait = <ClampedU8<10, 20> as TryFrom<u8>>::try_from(v);
        let checked = ClampedU8::<10, 20>::try_from(v);
        assert_eq!(by_trait, checked);
    }
}

#[test]
fn unordered_bounds_admit_nothing() {
    for v in 0u8..=255 {
        let r = <ClampedU8<20, 10> as TryFrom<u8>>::try_from(v);
        assert_eq!(r.unwrap_err(), OutOfBounds { lower: 20, upper: 10, given: v });
        let e = <ClampedU8<10, 10> as TryFrom<u8>>::try_from(v);
        assert_eq!(e.unwrap_err(), OutOfBounds { lower: 10, upper: 10, given: v });
        let i = <ClampedU8Inclusive<11, 10> as TryFrom<u8>>::try_from(v);
        assert_eq!(i.unwrap_err(), OutOfBoundsInclusive { lower: 11, upper: 10, given: v });
    }
}

#[test]
fn equals_the_plain_integer() {
    let c = ClampedU8::<10, 20>::try_from(15).unwrap();
    assert!(c == 15u8);
    assert!(c != 16u8);
    let d = ClampedU8::<10, 20>::try_from(15).unwrap();
    assert!(c == d);
    let e = ClampedU8::<10, 20>::try_from(16).unwrap();
    assert!(c != e);
    let s = ClampedI8::<246, 10>::try_from(-3).unwrap();
    assert!(s == -3i8);
}

#[test]
fn values_are_copied_and_hashed() {
    let c = ClampedU8::<10, 20>::try_from(15).unwrap();
    let d = c;
    let mut seen = HashSet::new();
    seen.insert(c);
    assert!(seen.contains(&d));
    assert!(!seen.contains(&ClampedU8::<10, 20>::try_from(16).unwrap()));
}

#[test]
fn signed_bounds_are_bit_patterns() {
    // -10 is 246 as a byte
    type C = ClampedI8<246, 10>;
    assert_eq!(C::try_from(-11).unwrap_err(), OutOfBounds { lower: -10, upper: 10, given: -11 });
    assert_eq!(C::try_from(-10).unwrap().unclamp(), -10);
    assert_eq!(C::try_from(0).unwrap().unclamp(), 0);
    assert_eq!(C::try_from(9).unwrap().unclamp(), 9);
    assert_eq!(C::try_from(10).unwrap_err(), OutOfBounds { lower: -10, upper: 10, given: 10 });

    type Whole = ClampedI8Inclusive<128, 127>;
    assert_eq!(Whole::try_from(i8::MIN).unwrap().unclamp(), i8::MIN);
    assert_eq!(Whole::try_from(i8::MAX).unwrap().unclamp(), i8::MAX);

    type Negative = ClampedI8ToInclusive<255>;
    assert_eq!(Negative::try_from(-1).unwrap().unclamp(), -1);
    assert_eq!(Negative::try_from(0).unwrap_err(), OutOfBoundsToInclusive { upper: -1, given: 0 });

    assert_eq!(ClampedI16Inclusive::<65535, 1>::try_from(-1).unwrap().unclamp(), -1);
    assert!(ClampedI16Inclusive::<65535, 1>::try_from(-2).is_err());
    assert_eq!(ClampedI32From::<4294967295>::try_from(i32::MAX).unwrap().unclamp(), i32::MAX);
    assert!(ClampedI32From::<4294967295>::try_from(-2).is_err());
    assert_eq!(ClampedI64To::<0>::try_from(i64::MIN).unwrap().unclamp(), i64::MIN);
    assert!(ClampedI64To::<0>::try_from(0).is_err());
    assert_eq!(
        ClampedI128::<{ u128::MAX }, 1>::try_from(-1).unwrap().unclamp(),
        -1
    );
    assert!(ClampedI128::<{ u128::MAX }, 1>::try_from(1).is_err());
    assert_eq!(ClampedIsize::<{ usize::MAX }, 5>::try_from(-1).unwrap().unclamp(), -1);
    assert!(ClampedIsize::<{ usize::MAX }, 5>::try_from(-2).is_err());
    assert!(<ClampedI8<10, 246> as TryFrom<i8>>::try_from(0).is_err());
}
