//! Bounded integers: wrappers around the primitive integers whose range is part of the type.
//!
//! A bounded value is made in one place, by a conversion that tests it against the bounds of
//! its type, and holds a value in that range for as long as it lives. There are five shapes
//! of range, named after the range types of `std::ops`, over each of the twelve primitive
//! integers.
//!
//! The bounds are const parameters of the type. Those of an unsigned type are the bounds
//! themselves; those of a signed type are the bounds' two's-complement bit patterns, so
//! `ClampedI8<246, 10>` is the range `-10..10`. `Debug` shows the bounds as the integers they
//! stand for.
//!
//! A type with two bounds whose bounds are out of order admits nothing. The conversion that
//! each type offers under its own name demands ordered bounds of its callers; the one that
//! it offers through `TryFrom` serves every type, and refuses every value for such a type.
pub mod bits;
pub mod clamped_i128;
pub mod clamped_i16;
pub mod clamped_i32;
pub mod clamped_i64;
pub mod clamped_i8;
pub mod clamped_isize;
pub mod clamped_u128;
pub mod clamped_u16;
pub mod clamped_u32;
pub mod clamped_u64;
pub mod clamped_u8;
pub mod clamped_usize;
pub mod decimal;
pub mod error;
pub mod label;
pub mod primitive;
pub mod range;
pub mod text;

pub use crate::error::{
    OutOfBounds, OutOfBoundsFrom, OutOfBoundsInclusive, OutOfBoundsTo, OutOfBoundsToInclusive,
};
pub use crate::primitive::Primitive;
pub use crate::clamped_u8::{
    ClampedU8, ClampedU8From, ClampedU8Inclusive, ClampedU8To, ClampedU8ToInclusive,
};
pub use crate::clamped_u16::{
    ClampedU16, ClampedU16From, ClampedU16Inclusive, ClampedU16To, ClampedU16ToInclusive,
};
pub use crate::clamped_u32::{
    ClampedU32, ClampedU32From, ClampedU32Inclusive, ClampedU32To, ClampedU32ToInclusive,
};
pub use crate::clamped_u64::{
    ClampedU64, ClampedU64From, ClampedU64Inclusive, ClampedU64To, ClampedU64ToInclusive,
};
pub use crate::clamped_u128::{
    ClampedU128, ClampedU128From, ClampedU128Inclusive, ClampedU128To, ClampedU128ToInclusive,
};
pub use crate::clamped_usize::{
    ClampedUsize, ClampedUsizeFrom, ClampedUsizeInclusive, ClampedUsizeTo, ClampedUsizeToInclusive,
};
pub use crate::clamped_i8::{
    ClampedI8, ClampedI8From, ClampedI8Inclusive, ClampedI8To, ClampedI8ToInclusive,
};
pub use crate::clamped_i16::{
    ClampedI16, ClampedI16From, ClampedI16Inclusive, ClampedI16To, ClampedI16ToInclusive,
};
pub use crate::clamped_i32::{
    ClampedI32, ClampedI32From, ClampedI32Inclusive, ClampedI32To, ClampedI32ToInclusive,
};
pub use crate::clamped_i64::{
    ClampedI64, ClampedI64From, ClampedI64Inclusive, ClampedI64To, ClampedI64ToInclusive,
};
pub use crate::clamped_i128::{
    ClampedI128, ClampedI128From, ClampedI128Inclusive, ClampedI128To, ClampedI128ToInclusive,
};
pub use crate::clamped_isize::{
    ClampedIsize, ClampedIsizeFrom, ClampedIsizeInclusive, ClampedIsizeTo, ClampedIsizeToInclusive,
};
