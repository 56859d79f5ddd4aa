//! Signed bounds. A bound of a signed type is named by its two's-complement bit pattern,
//! an unsigned integer of the same width; these functions read the signed integer out of it.
use vstd::prelude::*;

verus! {

/// The `i8` whose two's-complement bit pattern is `bits`.
pub open spec fn i8_of_bits(bits: u8) -> i8 {
    if bits <= i8::MAX as u8 {
        bits as i8
    } else {
        (bits as int - u8::MAX as int - 1) as i8
    }
}

/// Reads the `i8` whose two's-complement bit pattern is `bits`.
pub fn i8_from_bits(bits: u8) -> (v: i8)
    ensures
        v == i8_of_bits(bits),
        bits <= i8::MAX as u8 ==> v as int == bits as int,
        bits > i8::MAX as u8 ==> v as int == bits as int - u8::MAX as int - 1,
{
    let half: u8 = i8::MAX as u8;
    if bits <= half {
        bits as i8
    } else {
        i8::MIN + ((bits - half - 1) as i8)
    }
}

/// The `i16` whose two's-complement bit pattern is `bits`.
pub open spec fn i16_of_bits(bits: u16) -> i16 {
    if bits <= i16::MAX as u16 {
        bits as i16
    } else {
        (bits as int - u16::MAX as int - 1) as i16
    }
}

/// Reads the `i16` whose two's-complement bit pattern is `bits`.
pub fn i16_from_bits(bits: u16) -> (v: i16)
    ensures
        v == i16_of_bits(bits),
        bits <= i16::MAX as u16 ==> v as int == bits as int,
        bits > i16::MAX as u16 ==> v as int == bits as int - u16::MAX as int - 1,
{
    let half: u16 = i16::MAX as u16;
    if bits <= half {
        bits as i16
    } else {
        i16::MIN + ((bits - half - 1) as i16)
    }
}

/// The `i32` whose two's-complement bit pattern is `bits`.
pub open spec fn i32_of_bits(bits: u32) -> i32 {
    if bits <= i32::MAX as u32 {
        bits as i32
    } else {
        (bits as int - u32::MAX as int - 1) as i32
    }
}

/// Reads the `i32` whose two's-complement bit pattern is `bits`.
pub fn i32_from_bits(bits: u32) -> (v: i32)
    ensures
        v == i32_of_bits(bits),
        bits <= i32::MAX as u32 ==> v as int == bits as int,
        bits > i32::MAX as u32 ==> v as int == bits as int - u32::MAX as int - 1,
{
    let half: u32 = i32::MAX as u32;
    if bits <= half {
        bits as i32
    } else {
        i32::MIN + ((bits - half - 1) as i32)
    }
}

/// The `i64` whose two's-complement bit pattern is `bits`.
pub open spec fn i64_of_bits(bits: u64) -> i64 {
    if bits <= i64::MAX as u64 {
        bits as i64
    } else {
        (bits as int - u64::MAX as int - 1) as i64
    }
}

/// Reads the `i64` whose two's-complement bit pattern is `bits`.
pub fn i64_from_bits(bits: u64) -> (v: i64)
    ensures
        v == i64_of_bits(bits),
        bits <= i64::MAX as u64 ==> v as int == bits as int,
        bits > i64::MAX as u64 ==> v as int == bits as int - u64::MAX as int - 1,
{
    let half: u64 = i64::MAX as u64;
    if bits <= half {
        bits as i64
    } else {
        i64::MIN + ((bits - half - 1) as i64)
    }
}

/// The `i128` whose two's-complement bit pattern is `bits`.
pub open spec fn i128_of_bits(bits: u128) -> i128 {
    if bits <= i128::MAX as u128 {
        bits as i128
    } else {
        (bits as int - u128::MAX as int - 1) as i128
    }
}

/// Reads the `i128` whose two's-complement bit pattern is `bits`.
pub fn i128_from_bits(bits: u128) -> (v: i128)
    ensures
        v == i128_of_bits(bits),
        bits <= i128::MAX as u128 ==> v as int == bits as int,
        bits > i128::MAX as u128 ==> v as int == bits as int - u128::MAX as int - 1,
{
    let half: u128 = i128::MAX as u128;
    if bits <= half {
        bits as i128
    } else {
        i128::MIN + ((bits - half - 1) as i128)
    }
}

/// The `isize` whose two's-complement bit pattern is `bits`.
pub open spec fn isize_of_bits(bits: usize) -> isize {
    if bits <= isize::MAX as usize {
        bits as isize
    } else {
        (bits as int - usize::MAX as int - 1) as isize
    }
}

/// Reads the `isize` whose two's-complement bit pattern is `bits`.
pub fn isize_from_bits(bits: usize) -> (v: isize)
    ensures
        v == isize_of_bits(bits),
        bits <= isize::MAX as usize ==> v as int == bits as int,
        bits > isize::MAX as usize ==> v as int == bits as int - usize::MAX as int - 1,
{
    let half: usize = isize::MAX as usize;
    if bits <= half {
        bits as isize
    } else {
        isize::MIN + ((bits - half - 1) as isize)
    }
}

} // verus!
