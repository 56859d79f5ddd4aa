use clamped::{
    ClampedU8, ClampedU8From, ClampedU8Inclusive, ClampedU8To, ClampedU8ToInclusive, ClampedUsize,
};
use std::convert::TryInto;

#[test]
fn try_into_ok() {
    let c: ClampedUsize<5, 10> = 5.try_into().unwrap();
    println!("{:?}", c);
    println!("{}", c);
}

#[test]
fn try_into_err() {
    let e = TryInto::<ClampedUsize<5, 10>>::try_into(4).unwrap_err();
    println!("{:?}", e);
    println!("{}", e);
}

#[test]
fn test() {
    type Clamped = ClampedU8<10, 20>;

    Clamped::try_from(9).unwrap_err();
    Clamped::try_from(10).unwrap();
    Clamped::try_from(11).unwrap();

    Clamped::try_from(19).unwrap();
    Clamped::try_from(20).unwrap_err();
    Clamped::try_from(21).unwrap_err();

    type ClampedFrom = ClampedU8From<10>;

    ClampedFrom::try_from(9).unwrap_err();
    ClampedFrom::try_from(10).unwrap();
    ClampedFrom::try_from(11).unwrap();

    type ClampedInclusive = ClampedU8Inclusive<10, 20>;

    ClampedInclusive::try_from(9).unwrap_err();
    ClampedInclusive::try_from(10).unwrap();
    ClampedInclusive::try_from(11).unwrap();

    ClampedInclusive::try_from(19).unwrap();
    ClampedInclusive::try_from(20).unwrap();
    ClampedInclusive::try_from(21).unwrap_err();

    type ClampedTo = ClampedU8To<10>;

    ClampedTo::try_from(9).unwrap();
    ClampedTo::try_from(10).unwrap_err();
    ClampedTo::try_from(11).unwrap_err();

    type ClampedToInclusive = ClampedU8ToInclusive<10>;

    ClampedToInclusive::try_from(9).unwrap();
    ClampedToInclusive::try_from(10).unwrap();
    ClampedToInclusive::try_from(11).unwrap_err();
}
