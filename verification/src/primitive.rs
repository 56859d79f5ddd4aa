//! The primitive integers that a bounded type can wrap.
use vstd::prelude::*;
use crate::decimal::{decimal, decimal_signed, decimal_unsigned};

verus! {

/// A primitive integer: it has a mathematical value, an order and a decimal text.
pub trait Primitive: Copy + Sized {
    /// The integer that the machine value stands for.
    spec fn value(self) -> int;

    /// `self < other`, by value.
    fn below(self, other: Self) -> (b: bool)
        ensures
            b == (self.value() < other.value()),
    ;

    /// The decimal text of the value.
    fn to_decimal(self) -> (s: String)
        ensures
            s@ == decimal(self.value()),
    ;
}

impl Primitive for u8 {
    open spec fn value(self) -> int {
        self as int
    }

    fn below(self, other: Self) -> (b: bool) {
        self < other
    }

    fn to_decimal(self) -> (s: String) {
        decimal_unsigned(self as u128)
    }
}

impl Primitive for u16 {
    open spec fn value(self) -> int {
        self as int
    }

    fn below(self, other: Self) -> (b: bool) {
        self < other
    }

    fn to_decimal(self) -> (s: String) {
        decimal_unsigned(self as u128)
    }
}

impl Primitive for u32 {
    open spec fn value(self) -> int {
        self as int
    }

    fn below(self, other: Self) -> (b: bool) {
        self < other
    }

    fn to_decimal(self) -> (s: String) {
        decimal_unsigned(self as u128)
    }
}

impl Primitive for u64 {
    open spec fn value(self) -> int {
        self as int
    }

    fn below(self, other: Self) -> (b: bool) {
        self < other
    }

    fn to_decimal(self) -> (s: String) {
        decimal_unsigned(self as u128)
    }
}

impl Primitive for u128 {
    open spec fn value(self) -> int {
        self as int
    }

    fn below(self, other: Self) -> (b: bool) {
        self < other
    }

    fn to_decimal(self) -> (s: String) {
        decimal_unsigned(self as u128)
    }
}

impl Primitive for usize {
    open spec fn value(self) -> int {
        self as int
    }

    fn below(self, other: Self) -> (b: bool) {
        self < other
    }

    fn to_decimal(self) -> (s: String) {
        decimal_unsigned(self as u128)
    }
}

impl Primitive for i8 {
    open spec fn value(self) -> int {
        self as int
    }

    fn below(self, other: Self) -> (b: bool) {
        self < other
    }

    fn to_decimal(self) -> (s: String) {
        decimal_signed(self as i128)
    }
}

impl Primitive for i16 {
    open spec fn value(self) -> int {
        self as int
    }

    fn below(self, other: Self) -> (b: bool) {
        self < other
    }

    fn to_decimal(self) -> (s: String) {
        decimal_signed(self as i128)
    }
}

impl Primitive for i32 {
    open spec fn value(self) -> int {
        self as int
    }

    fn below(self, other: Self) -> (b: bool) {
        self < other
    }

    fn to_decimal(self) -> (s: String) {
        decimal_signed(self as i128)
    }
}

impl Primitive for i64 {
    open spec fn value(self) -> int {
        self as int
    }

    fn below(self, other: Self) -> (b: bool) {
        self < other
    }

    fn to_decimal(self) -> (s: String) {
        decimal_signed(self as i128)
    }
}

impl Primitive for i128 {
    open spec fn value(self) -> int {
        self as int
    }

    fn below(self, other: Self) -> (b: bool) {
        self < other
    }

    fn to_decimal(self) -> (s: String) {
        decimal_signed(self as i128)
    }
}

impl Primitive for isize {
    open spec fn value(self) -> int {
        self as int
    }

    fn below(self, other: Self) -> (b: bool) {
        self < other
    }

    fn to_decimal(self) -> (s: String) {
        decimal_signed(self as i128)
    }
}

} // verus!
