//! The five shapes of range, and the test that decides whether a value is let in.
use vstd::prelude::*;
use crate::error::{
    OutOfBounds, OutOfBoundsFrom, OutOfBoundsInclusive, OutOfBoundsTo, OutOfBoundsToInclusive,
};
use crate::primitive::Primitive;

verus! {

/// `value` lies in the half-open range `lower..upper`.
pub open spec fn in_range(lower: int, upper: int, value: int) -> bool {
    lower <= value < upper
}

/// `value` lies in the range `lower..`.
pub open spec fn in_range_from(lower: int, value: int) -> bool {
    lower <= value
}

/// `value` lies in the inclusive range `lower..=upper`.
pub open spec fn in_range_inclusive(lower: int, upper: int, value: int) -> bool {
    lower <= value <= upper
}

/// `value` lies in the range `..upper`.
pub open spec fn in_range_to(upper: int, value: int) -> bool {
    value < upper
}

/// `value` lies in the range `..=upper`.
pub open spec fn in_range_to_inclusive(upper: int, value: int) -> bool {
    value <= upper
}

/// What testing `given` against `lower..upper` yields: the value, or the record of its refusal.
pub open spec fn range_outcome<T: Primitive>(lower: T, upper: T, given: T) -> Result<
    T,
    OutOfBounds<T>,
> {
    if in_range(lower.value(), upper.value(), given.value()) {
        Ok(given)
    } else {
        Err(OutOfBounds { lower, upper, given })
    }
}

/// What testing `given` against `lower..` yields.
pub open spec fn range_from_outcome<T: Primitive>(lower: T, given: T) -> Result<
    T,
    OutOfBoundsFrom<T>,
> {
    if in_range_from(lower.value(), given.value()) {
        Ok(given)
    } else {
        Err(OutOfBoundsFrom { lower, given })
    }
}

/// What testing `given` against `lower..=upper` yields.
pub open spec fn range_inclusive_outcome<T: Primitive>(lower: T, upper: T, given: T) -> Result<
    T,
    OutOfBoundsInclusive<T>,
> {
    if in_range_inclusive(lower.value(), upper.value(), given.value()) {
        Ok(given)
    } else {
        Err(OutOfBoundsInclusive { lower, upper, given })
    }
}

/// What testing `given` against `..upper` yields.
pub open spec fn range_to_outcome<T: Primitive>(upper: T, given: T) -> Result<
    T,
    OutOfBoundsTo<T>,
> {
    if in_range_to(upper.value(), given.value()) {
        Ok(given)
    } else {
        Err(OutOfBoundsTo { upper, given })
    }
}

/// What testing `given` against `..=upper` yields.
pub open spec fn range_to_inclusive_outcome<T: Primitive>(upper: T, given: T) -> Result<
    T,
    OutOfBoundsToInclusive<T>,
> {
    if in_range_to_inclusive(upper.value(), given.value()) {
        Ok(given)
    } else {
        Err(OutOfBoundsToInclusive { upper, given })
    }
}

/// Tests `given` against the half-open range `lower..upper`.
pub fn check_range<T: Primitive>(lower: T, upper: T, given: T) -> (r: Result<T, OutOfBounds<T>>)
    ensures
        r == range_outcome(lower, upper, given),
{
    if given.below(lower) || !given.below(upper) {
        Err(OutOfBounds { lower, upper, given })
    } else {
        Ok(given)
    }
}

/// Tests `given` against the range `lower..`.
pub fn check_range_from<T: Primitive>(lower: T, given: T) -> (r: Result<T, OutOfBoundsFrom<T>>)
    ensures
        r == range_from_outcome(lower, given),
{
    if given.below(lower) {
        Err(OutOfBoundsFrom { lower, given })
    } else {
        Ok(given)
    }
}

/// Tests `given` against the inclusive range `lower..=upper`.
pub fn check_range_inclusive<T: Primitive>(lower: T, upper: T, given: T) -> (r: Result<
    T,
    OutOfBoundsInclusive<T>,
>)
    ensures
        r == range_inclusive_outcome(lower, upper, given),
{
    if given.below(lower) || upper.below(given) {
        Err(OutOfBoundsInclusive { lower, upper, given })
    } else {
        Ok(given)
    }
}

/// Tests `given` against the range `..upper`.
pub fn check_range_to<T: Primitive>(upper: T, given: T) -> (r: Result<T, OutOfBoundsTo<T>>)
    ensures
        r == range_to_outcome(upper, given),
{
    if !given.below(upper) {
        Err(OutOfBoundsTo { upper, given })
    } else {
        Ok(given)
    }
}

/// Tests `given` against the range `..=upper`.
pub fn check_range_to_inclusive<T: Primitive>(upper: T, given: T) -> (r: Result<
    T,
    OutOfBoundsToInclusive<T>,
>)
    ensures
        r == range_to_inclusive_outcome(upper, given),
{
    if upper.below(given) {
        Err(OutOfBoundsToInclusive { upper, given })
    } else {
        Ok(given)
    }
}

} // verus!
