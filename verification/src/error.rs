//! What a failed conversion hands back: one record for each shape of range.
use vstd::prelude::*;
use vstd::string::*;
use crate::decimal::decimal;
use crate::primitive::Primitive;
use crate::text::write_text;

verus! {

/// The value `given` was refused: it is not in the half-open range `lower..upper`.
#[derive(Debug, PartialEq, Eq)]
pub struct OutOfBounds<T> {
    pub lower: T,
    pub upper: T,
    pub given: T,
}

impl<T: Primitive> OutOfBounds<T> {
    /// The sentence that describes the refusal.
    pub open spec fn text(self) -> Seq<char> {
        "The value "@
            + decimal(self.given.value())
            + " is not in the half-open range "@
            + decimal(self.lower.value())
            + ".."@
            + decimal(self.upper.value())
    }

    /// Writes the sentence that describes the refusal.
    pub fn message(&self) -> (s: String)
        ensures
            s@ == self.text(),
    {
        let s = String::from_str("The value ");
        let s = s.concat(self.given.to_decimal().as_str());
        let s = s.concat(" is not in the half-open range ");
        let s = s.concat(self.lower.to_decimal().as_str());
        let s = s.concat("..");
        let s = s.concat(self.upper.to_decimal().as_str());
        s
    }
}

impl<T: Primitive> core::fmt::Display for OutOfBounds<T> {
    fn fmt(&self, f: &mut core::fmt::Formatter<'_>) -> (r: Result<(), core::fmt::Error>) {
        let text = self.message();
        write_text(f, text.as_str())
    }
}

/// The value `given` was refused: it is not in the range `lower..`, which has no upper end.
#[derive(Debug, PartialEq, Eq)]
pub struct OutOfBoundsFrom<T> {
    pub lower: T,
    pub given: T,
}

impl<T: Primitive> OutOfBoundsFrom<T> {
    /// The sentence that describes the refusal.
    pub open spec fn text(self) -> Seq<char> {
        "The value "@
            + decimal(self.given.value())
            + " is not in the inclusive range "@
            + decimal(self.lower.value())
            + ".."@
    }

    /// Writes the sentence that describes the refusal.
    pub fn message(&self) -> (s: String)
        ensures
            s@ == self.text(),
    {
        let s = String::from_str("The value ");
        let s = s.concat(self.given.to_decimal().as_str());
        let s = s.concat(" is not in the inclusive range ");
        let s = s.concat(self.lower.to_decimal().as_str());
        let s = s.concat("..");
        s
    }
}

impl<T: Primitive> core::fmt::Display for OutOfBoundsFrom<T> {
    fn fmt(&self, f: &mut core::fmt::Formatter<'_>) -> (r: Result<(), core::fmt::Error>) {
        let text = self.message();
        write_text(f, text.as_str())
    }
}

/// The value `given` was refused: it is not in the inclusive range `lower..=upper`.
#[derive(Debug, PartialEq, Eq)]
pub struct OutOfBoundsInclusive<T> {
    pub lower: T,
    pub upper: T,
    pub given: T,
}

impl<T: Primitive> OutOfBoundsInclusive<T> {
    /// The sentence that describes the refusal.
    pub open spec fn text(self) -> Seq<char> {
        "The value "@
            + decimal(self.given.value())
            + " is not in the inclusive range "@
            + decimal(self.lower.value())
            + "..="@
            + decimal(self.upper.value())
    }

    /// Writes the sentence that describes the refusal.
    pub fn message(&self) -> (s: String)
        ensures
            s@ == self.text(),
    {
        let s = String::from_str("The value ");
        let s = s.concat(self.given.to_decimal().as_str());
        let s = s.concat(" is not in the inclusive range ");
        let s = s.concat(self.lower.to_decimal().as_str());
        let s = s.concat("..=");
        let s = s.concat(self.upper.to_decimal().as_str());
        s
    }
}

impl<T: Primitive> core::fmt::Display for OutOfBoundsInclusive<T> {
    fn fmt(&self, f: &mut core::fmt::Formatter<'_>) -> (r: Result<(), core::fmt::Error>) {
        let text = self.message();
        write_text(f, text.as_str())
    }
}

/// The value `given` was refused: it is not in the range `..upper`, which ends before `upper`.
#[derive(Debug, PartialEq, Eq)]
pub struct OutOfBoundsTo<T> {
    pub upper: T,
    pub given: T,
}

impl<T: Primitive> OutOfBoundsTo<T> {
    /// The sentence that describes the refusal.
    pub open spec fn text(self) -> Seq<char> {
        "The value "@
            + decimal(self.given.value())
            + " is not in the exclusive range .."@
            + decimal(self.upper.value())
    }

    /// Writes the sentence that describes the refusal.
    pub fn message(&self) -> (s: String)
        ensures
            s@ == self.text(),
    {
        let s = String::from_str("The value ");
        let s = s.concat(self.given.to_decimal().as_str());
        let s = s.concat(" is not in the exclusive range ..");
        let s = s.concat(self.upper.to_decimal().as_str());
        s
    }
}

impl<T: Primitive> core::fmt::Display for OutOfBoundsTo<T> {
    fn fmt(&self, f: &mut core::fmt::Formatter<'_>) -> (r: Result<(), core::fmt::Error>) {
        let text = self.message();
        write_text(f, text.as_str())
    }
}

/// The value `given` was refused: it is not in the range `..=upper`, which ends with `upper`.
#[derive(Debug, PartialEq, Eq)]
pub struct OutOfBoundsToInclusive<T> {
    pub upper: T,
    pub given: T,
}

impl<T: Primitive> OutOfBoundsToInclusive<T> {
    /// The sentence that describes the refusal.
    pub open spec fn text(self) -> Seq<char> {
        "The value "@
            + decimal(self.given.value())
            + " is not in the inclusive range ..="@
            + decimal(self.upper.value())
    }

    /// Writes the sentence that describes the refusal.
    pub fn message(&self) -> (s: String)
        ensures
            s@ == self.text(),
    {
        let s = String::from_str("The value ");
        let s = s.concat(self.given.to_decimal().as_str());
        let s = s.concat(" is not in the inclusive range ..=");
        let s = s.concat(self.upper.to_decimal().as_str());
        s
    }
}

impl<T: Primitive> core::fmt::Display for OutOfBoundsToInclusive<T> {
    fn fmt(&self, f: &mut core::fmt::Formatter<'_>) -> (r: Result<(), core::fmt::Error>) {
        let text = self.message();
        write_text(f, text.as_str())
    }
}

} // verus!
