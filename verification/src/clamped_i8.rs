//! The bounded types over `i8`.
use vstd::prelude::*;
use vstd::std_specs::cmp::PartialEqSpec;
use vstd::std_specs::convert::FromSpec;
use crate::bits::{i8_from_bits, i8_of_bits};
use crate::label::{
    label_one, label_two, lemma_label_one_injective, lemma_label_two_injective, write_label_one,
    write_label_two,
};
use crate::error::{
    OutOfBounds, OutOfBoundsFrom, OutOfBoundsInclusive, OutOfBoundsTo, OutOfBoundsToInclusive,
};
use crate::primitive::Primitive;
use crate::range::{
    check_range, check_range_from, check_range_inclusive, check_range_to,
    check_range_to_inclusive, in_range, in_range_from, in_range_inclusive, in_range_to,
    in_range_to_inclusive, range_from_outcome, range_inclusive_outcome, range_outcome,
    range_to_inclusive_outcome, range_to_outcome,
};
use crate::text::write_text;

verus! {

/// An integer bound in the half-open range `LOWER..UPPER`: from `LOWER` on, and below `UPPER`.
/// Each bound is given by its two's-complement bit pattern, as `-3i8 as u8` writes it.
#[derive(Clone, Copy, Hash)]
pub struct ClampedI8<const LOWER: u8, const UPPER: u8>(i8);

impl<const LOWER: u8, const UPPER: u8> View for ClampedI8<LOWER, UPPER> {
    type V = i8;

    closed spec fn view(&self) -> i8 {
        self.0
    }
}

impl<const LOWER: u8, const UPPER: u8> ClampedI8<LOWER, UPPER> {
    /// The lower bound.
    pub open spec fn lower() -> i8 {
        i8_of_bits(LOWER)
    }

    /// The upper bound.
    pub open spec fn upper() -> i8 {
        i8_of_bits(UPPER)
    }

    /// Whether the range of this type lets `value` in.
    pub open spec fn admits(value: i8) -> bool {
        in_range(Self::lower() as int, Self::upper() as int, value as int)
    }

    /// Whether the bounds are in order. Where they are not, the type admits nothing.
    pub open spec fn bounds_ordered() -> bool {
        Self::lower() < Self::upper()
    }

    /// The bounded value that holds `inner`.
    pub closed spec fn holding(inner: i8) -> Self {
        Self(inner)
    }

    /// What converting `inner` yields: the bounded value, or the record of the refusal.
    pub open spec fn outcome(inner: i8) -> Result<Self, OutOfBounds<i8>> {
        match range_outcome(Self::lower(), Self::upper(), inner) {
            Ok(v) => Ok(Self::holding(v)),
            Err(e) => Err(e),
        }
    }

    /// The text that `Debug` shows: the type with its bounds, then the value.
    pub open spec fn label_text(self) -> Seq<char> {
        label_two("ClampedI8"@, Self::lower() as int, Self::upper() as int, self@ as int)
    }

    /// Every value of this type lies in the range of the type.
    #[verifier::type_invariant]
    spec fn within_bounds(self) -> bool {
        Self::admits(self.0)
    }

    /// Wraps `inner` without testing it: for a value that has passed the test.
    fn new_unchecked(inner: i8) -> (c: Self)
        requires
            Self::admits(inner),
        ensures
            c == Self::holding(inner),
    {
        Self(inner)
    }

    /// Converts `inner`, if the range lets it in.
    /// The bounds must be in order: a type whose bounds are not admits nothing, and naming
    /// one is a mistake that this demand brings to light.
    pub fn try_from(inner: i8) -> (r: Result<Self, OutOfBounds<i8>>)
        requires
            Self::bounds_ordered(),
        ensures
            r == Self::outcome(inner),
            Self::admits(inner) ==> r is Ok && r->Ok_0@ == inner,
            !Self::admits(inner) ==> r is Err,
    {
        let lower: i8 = i8_from_bits(LOWER);
        let upper: i8 = i8_from_bits(UPPER);
        match check_range(lower, upper, inner) {
            Ok(v) => Ok(Self::new_unchecked(v)),
            Err(e) => Err(e),
        }
    }

    /// Gives the plain integer back.
    pub fn unclamp(self) -> (inner: i8)
        ensures
            inner == self@,
            Self::admits(inner),
    {
        proof {
            use_type_invariant(&self);
        }
        self.0
    }

    /// Writes the text that `Debug` shows.
    pub fn label(&self) -> (s: String)
        ensures
            s@ == self.label_text(),
    {
        write_label_two("ClampedI8", i8_from_bits(LOWER), i8_from_bits(UPPER), self.0)
    }

    /// The bounded value that holds `inner` shows `inner`.
    pub proof fn lemma_holding_view(inner: i8)
        ensures
            Self::holding(inner)@ == inner,
    {
    }

    /// A value that the range lets in is converted, and comes back unchanged.
    pub proof fn lemma_round_trip(value: i8)
        requires
            Self::admits(value),
        ensures
            Self::outcome(value) is Ok,
            i8::from_spec(Self::outcome(value)->Ok_0) == value,
    {
    }

    /// A value that the range does not let in is refused, and the record holds the bounds
    /// and the value.
    pub proof fn lemma_refusal(value: i8)
        requires
            !Self::admits(value),
        ensures
            Self::outcome(value) == Err::<Self, OutOfBounds<i8>>(
                (OutOfBounds { lower: Self::lower(), upper: Self::upper(), given: value }),
            ),
    {
    }

    /// A bounded value made from `value` equals the plain `value`.
    pub proof fn lemma_equals_plain(value: i8)
        requires
            Self::admits(value),
        ensures
            Self::outcome(value)->Ok_0.eq_spec(&value),
    {
    }

    /// Values of two types of this shape whose bounds differ never share a label, not even
    /// where they hold the same integer.
    pub proof fn lemma_label_tells_bounds<const LOWER_B: u8, const UPPER_B: u8>(
        self,
        other: ClampedI8<LOWER_B, UPPER_B>,
    )
        requires
            LOWER != LOWER_B || UPPER != UPPER_B,
        ensures
            self.label_text() != other.label_text(),
    {
        if self.label_text() == other.label_text() {
            lemma_label_two_injective(
                "ClampedI8"@,
                Self::lower() as int,
                Self::upper() as int,
                self@ as int,
                ClampedI8::<LOWER_B,
                UPPER_B>::lower() as int,
                ClampedI8::<LOWER_B,
                UPPER_B>::upper() as int,
                other@ as int,
            );
        }
    }

    /// A type whose bounds are not in order admits no value.
    pub proof fn lemma_unordered_admits_nothing(value: i8)
        requires
            !Self::bounds_ordered(),
        ensures
            !Self::admits(value),
    {
    }
}

/// The conversion for every type of this shape, also one whose bounds are not in order:
/// such a type refuses every value.
impl<const LOWER: u8, const UPPER: u8> TryFrom<i8> for ClampedI8<LOWER, UPPER> {
    type Error = OutOfBounds<i8>;

    fn try_from(inner: i8) -> (r: Result<Self, OutOfBounds<i8>>) {
        let lower: i8 = i8_from_bits(LOWER);
        let upper: i8 = i8_from_bits(UPPER);
        if lower < upper {
            Self::try_from(inner)
        } else {
            Err(OutOfBounds { lower, upper, given: inner })
        }
    }
}

impl<const LOWER: u8, const UPPER: u8> vstd::std_specs::convert::TryFromSpecImpl<i8>
    for ClampedI8<LOWER, UPPER>
{
    open spec fn obeys_try_from_spec() -> bool {
        true
    }

    open spec fn try_from_spec(v: i8) -> Result<Self, OutOfBounds<i8>> {
        Self::outcome(v)
    }
}

/// Giving up the bounds: the plain integer that the value holds.
impl<const LOWER: u8, const UPPER: u8> From<ClampedI8<LOWER, UPPER>> for i8 {
    fn from(clamped: ClampedI8<LOWER, UPPER>) -> (inner: i8) {
        clamped.unclamp()
    }
}

impl<const LOWER: u8, const UPPER: u8>
    vstd::std_specs::convert::FromSpecImpl<ClampedI8<LOWER, UPPER>> for i8
{
    open spec fn obeys_from_spec() -> bool {
        true
    }

    open spec fn from_spec(v: ClampedI8<LOWER, UPPER>) -> i8 {
        v@
    }
}

impl<const LOWER: u8, const UPPER: u8> PartialEq for ClampedI8<LOWER, UPPER> {
    fn eq(&self, other: &Self) -> (r: bool) {
        self.0 == other.0
    }
}

impl<const LOWER: u8, const UPPER: u8> vstd::std_specs::cmp::PartialEqSpecImpl
    for ClampedI8<LOWER, UPPER>
{
    open spec fn obeys_eq_spec() -> bool {
        true
    }

    open spec fn eq_spec(&self, other: &Self) -> bool {
        self@ == other@
    }
}

impl<const LOWER: u8, const UPPER: u8> Eq for ClampedI8<LOWER, UPPER> {
}

/// A bounded value equals the plain integer that it holds.
impl<const LOWER: u8, const UPPER: u8> PartialEq<i8> for ClampedI8<LOWER, UPPER> {
    fn eq(&self, other: &i8) -> (r: bool) {
        self.0 == *other
    }
}

impl<const LOWER: u8, const UPPER: u8> vstd::std_specs::cmp::PartialEqSpecImpl<i8>
    for ClampedI8<LOWER, UPPER>
{
    open spec fn obeys_eq_spec() -> bool {
        true
    }

    open spec fn eq_spec(&self, other: &i8) -> bool {
        self@ == *other
    }
}

/// Shows the label: the bounds are part of it.
impl<const LOWER: u8, const UPPER: u8> core::fmt::Debug for ClampedI8<LOWER, UPPER> {
    fn fmt(&self, f: &mut core::fmt::Formatter<'_>) -> (r: Result<(), core::fmt::Error>) {
        let text = self.label();
        write_text(f, text.as_str())
    }
}

/// Shows the plain integer.
impl<const LOWER: u8, const UPPER: u8> core::fmt::Display for ClampedI8<LOWER, UPPER> {
    fn fmt(&self, f: &mut core::fmt::Formatter<'_>) -> (r: Result<(), core::fmt::Error>) {
        let text = self.0.to_decimal();
        write_text(f, text.as_str())
    }
}

/// An integer bound in the range `LOWER..`: from `LOWER` on, with no upper end.
/// Each bound is given by its two's-complement bit pattern, as `-3i8 as u8` writes it.
#[derive(Clone, Copy, Hash)]
pub struct ClampedI8From<const LOWER: u8>(i8);

impl<const LOWER: u8> View for ClampedI8From<LOWER> {
    type V = i8;

    closed spec fn view(&self) -> i8 {
        self.0
    }
}

impl<const LOWER: u8> ClampedI8From<LOWER> {
    /// The lower bound.
    pub open spec fn lower() -> i8 {
        i8_of_bits(LOWER)
    }

    /// Whether the range of this type lets `value` in.
    pub open spec fn admits(value: i8) -> bool {
        in_range_from(Self::lower() as int, value as int)
    }

    /// The bounded value that holds `inner`.
    pub closed spec fn holding(inner: i8) -> Self {
        Self(inner)
    }

    /// What converting `inner` yields: the bounded value, or the record of the refusal.
    pub open spec fn outcome(inner: i8) -> Result<Self, OutOfBoundsFrom<i8>> {
        match range_from_outcome(Self::lower(), inner) {
            Ok(v) => Ok(Self::holding(v)),
            Err(e) => Err(e),
        }
    }

    /// The text that `Debug` shows: the type with its bounds, then the value.
    pub open spec fn label_text(self) -> Seq<char> {
        label_one("ClampedI8From"@, Self::lower() as int, self@ as int)
    }

    /// Every value of this type lies in the range of the type.
    #[verifier::type_invariant]
    spec fn within_bounds(self) -> bool {
        Self::admits(self.0)
    }

    /// Wraps `inner` without testing it: for a value that has passed the test.
    fn new_unchecked(inner: i8) -> (c: Self)
        requires
            Self::admits(inner),
        ensures
            c == Self::holding(inner),
    {
        Self(inner)
    }

    /// Converts `inner`, if the range lets it in.
    pub fn try_from(inner: i8) -> (r: Result<Self, OutOfBoundsFrom<i8>>)
        ensures
            r == Self::outcome(inner),
            Self::admits(inner) ==> r is Ok && r->Ok_0@ == inner,
            !Self::admits(inner) ==> r is Err,
    {
        let lower: i8 = i8_from_bits(LOWER);
        match check_range_from(lower, inner) {
            Ok(v) => Ok(Self::new_unchecked(v)),
            Err(e) => Err(e),
        }
    }

    /// Gives the plain integer back.
    pub fn unclamp(self) -> (inner: i8)
        ensures
            inner == self@,
            Self::admits(inner),
    {
        proof {
            use_type_invariant(&self);
        }
        self.0
    }

    /// Writes the text that `Debug` shows.
    pub fn label(&self) -> (s: String)
        ensures
            s@ == self.label_text(),
    {
        write_label_one("ClampedI8From", i8_from_bits(LOWER), self.0)
    }

    /// The bounded value that holds `inner` shows `inner`.
    pub proof fn lemma_holding_view(inner: i8)
        ensures
            Self::holding(inner)@ == inner,
    {
    }

    /// A value that the range lets in is converted, and comes back unchanged.
    pub proof fn lemma_round_trip(value: i8)
        requires
            Self::admits(value),
        ensures
            Self::outcome(value) is Ok,
            i8::from_spec(Self::outcome(value)->Ok_0) == value,
    {
    }

    /// A value that the range does not let in is refused, and the record holds the bounds
    /// and the value.
    pub proof fn lemma_refusal(value: i8)
        requires
            !Self::admits(value),
        ensures
            Self::outcome(value) == Err::<Self, OutOfBoundsFrom<i8>>(
                (OutOfBoundsFrom { lower: Self::lower(), given: value }),
            ),
    {
    }

    /// A bounded value made from `value` equals the plain `value`.
    pub proof fn lemma_equals_plain(value: i8)
        requires
            Self::admits(value),
        ensures
            Self::outcome(value)->Ok_0.eq_spec(&value),
    {
    }

    /// Values of two types of this shape whose bounds differ never share a label, not even
    /// where they hold the same integer.
    pub proof fn lemma_label_tells_bounds<const LOWER_B: u8>(
        self,
        other: ClampedI8From<LOWER_B>,
    )
        requires
            LOWER != LOWER_B,
        ensures
            self.label_text() != other.label_text(),
    {
        if self.label_text() == other.label_text() {
            lemma_label_one_injective(
                "ClampedI8From"@,
                Self::lower() as int,
                self@ as int,
                ClampedI8From::<LOWER_B>::lower() as int,
                other@ as int,
            );
        }
    }
}

impl<const LOWER: u8> TryFrom<i8> for ClampedI8From<LOWER> {
    type Error = OutOfBoundsFrom<i8>;

    fn try_from(inner: i8) -> (r: Result<Self, OutOfBoundsFrom<i8>>) {
        Self::try_from(inner)
    }
}

impl<const LOWER: u8> vstd::std_specs::convert::TryFromSpecImpl<i8> for ClampedI8From<LOWER> {
    open spec fn obeys_try_from_spec() -> bool {
        true
    }

    open spec fn try_from_spec(v: i8) -> Result<Self, OutOfBoundsFrom<i8>> {
        Self::outcome(v)
    }
}

/// Giving up the bounds: the plain integer that the value holds.
impl<const LOWER: u8> From<ClampedI8From<LOWER>> for i8 {
    fn from(clamped: ClampedI8From<LOWER>) -> (inner: i8) {
        clamped.unclamp()
    }
}

impl<const LOWER: u8> vstd::std_specs::convert::FromSpecImpl<ClampedI8From<LOWER>> for i8 {
    open spec fn obeys_from_spec() -> bool {
        true
    }

    open spec fn from_spec(v: ClampedI8From<LOWER>) -> i8 {
        v@
    }
}

impl<const LOWER: u8> PartialEq for ClampedI8From<LOWER> {
    fn eq(&self, other: &Self) -> (r: bool) {
        self.0 == other.0
    }
}

impl<const LOWER: u8> vstd::std_specs::cmp::PartialEqSpecImpl for ClampedI8From<LOWER> {
    open spec fn obeys_eq_spec() -> bool {
        true
    }

    open spec fn eq_spec(&self, other: &Self) -> bool {
        self@ == other@
    }
}

impl<const LOWER: u8> Eq for ClampedI8From<LOWER> {
}

/// A bounded value equals the plain integer that it holds.
impl<const LOWER: u8> PartialEq<i8> for ClampedI8From<LOWER> {
    fn eq(&self, other: &i8) -> (r: bool) {
        self.0 == *other
    }
}

impl<const LOWER: u8> vstd::std_specs::cmp::PartialEqSpecImpl<i8> for ClampedI8From<LOWER> {
    open spec fn obeys_eq_spec() -> bool {
        true
    }

    open spec fn eq_spec(&self, other: &i8) -> bool {
        self@ == *other
    }
}

/// Shows the label: the bounds are part of it.
impl<const LOWER: u8> core::fmt::Debug for ClampedI8From<LOWER> {
    fn fmt(&self, f: &mut core::fmt::Formatter<'_>) -> (r: Result<(), core::fmt::Error>) {
        let text = self.label();
        write_text(f, text.as_str())
    }
}

/// Shows the plain integer.
impl<const LOWER: u8> core::fmt::Display for ClampedI8From<LOWER> {
    fn fmt(&self, f: &mut core::fmt::Formatter<'_>) -> (r: Result<(), core::fmt::Error>) {
        let text = self.0.to_decimal();
        write_text(f, text.as_str())
    }
}

/// An integer bound in the inclusive range `LOWER..=UPPER`: from `LOWER` on, up to `UPPER` itself.
/// Each bound is given by its two's-complement bit pattern, as `-3i8 as u8` writes it.
#[derive(Clone, Copy, Hash)]
pub struct ClampedI8Inclusive<const LOWER: u8, const UPPER: u8>(i8);

impl<const LOWER: u8, const UPPER: u8> View for ClampedI8Inclusive<LOWER, UPPER> {
    type V = i8;

    closed spec fn view(&self) -> i8 {
        self.0
    }
}

impl<const LOWER: u8, const UPPER: u8> ClampedI8Inclusive<LOWER, UPPER> {
    /// The lower bound.
    pub open spec fn lower() -> i8 {
        i8_of_bits(LOWER)
    }

    /// The upper bound.
    pub open spec fn upper() -> i8 {
        i8_of_bits(UPPER)
    }

    /// Whether the range of this type lets `value` in.
    pub open spec fn admits(value: i8) -> bool {
        in_range_inclusive(Self::lower() as int, Self::upper() as int, value as int)
    }

    /// Whether the bounds are in order. Where they are not, the type admits nothing.
    pub open spec fn bounds_ordered() -> bool {
        Self::lower() <= Self::upper()
    }

    /// The bounded value that holds `inner`.
    pub closed spec fn holding(inner: i8) -> Self {
        Self(inner)
    }

    /// What converting `inner` yields: the bounded value, or the record of the refusal.
    pub open spec fn outcome(inner: i8) -> Result<Self, OutOfBoundsInclusive<i8>> {
        match range_inclusive_outcome(Self::lower(), Self::upper(), inner) {
            Ok(v) => Ok(Self::holding(v)),
            Err(e) => Err(e),
        }
    }

    /// The text that `Debug` shows: the type with its bounds, then the value.
    pub open spec fn label_text(self) -> Seq<char> {
        label_two("ClampedI8Inclusive"@, Self::lower() as int, Self::upper() as int, self@ as int)
    }

    /// Every value of this type lies in the range of the type.
    #[verifier::type_invariant]
    spec fn within_bounds(self) -> bool {
        Self::admits(self.0)
    }

    /// Wraps `inner` without testing it: for a value that has passed the test.
    fn new_unchecked(inner: i8) -> (c: Self)
        requires
            Self::admits(inner),
        ensures
            c == Self::holding(inner),
    {
        Self(inner)
    }

    /// Converts `inner`, if the range lets it in.
    /// The bounds must be in order: a type whose bounds are not admits nothing, and naming
    /// one is a mistake that this demand brings to light.
    pub fn try_from(inner: i8) -> (r: Result<Self, OutOfBoundsInclusive<i8>>)
        requires
            Self::bounds_ordered(),
        ensures
            r == Self::outcome(inner),
            Self::admits(inner) ==> r is Ok && r->Ok_0@ == inner,
            !Self::admits(inner) ==> r is Err,
    {
        let lower: i8 = i8_from_bits(LOWER);
        let upper: i8 = i8_from_bits(UPPER);
        match check_range_inclusive(lower, upper, inner) {
            Ok(v) => Ok(Self::new_unchecked(v)),
            Err(e) => Err(e),
        }
    }

    /// Gives the plain integer back.
    pub fn unclamp(self) -> (inner: i8)
        ensures
            inner == self@,
            Self::admits(inner),
    {
        proof {
            use_type_invariant(&self);
        }
        self.0
    }

    /// Writes the text that `Debug` shows.
    pub fn label(&self) -> (s: String)
        ensures
            s@ == self.label_text(),
    {
        write_label_two("ClampedI8Inclusive", i8_from_bits(LOWER), i8_from_bits(UPPER), self.0)
    }

    /// The bounded value that holds `inner` shows `inner`.
    pub proof fn lemma_holding_view(inner: i8)
        ensures
            Self::holding(inner)@ == inner,
    {
    }

    /// A value that the range lets in is converted, and comes back unchanged.
    pub proof fn lemma_round_trip(value: i8)
        requires
            Self::admits(value),
        ensures
            Self::outcome(value) is Ok,
            i8::from_spec(Self::outcome(value)->Ok_0) == value,
    {
    }

    /// A value that the range does not let in is refused, and the record holds the bounds
    /// and the value.
    pub proof fn lemma_refusal(value: i8)
        requires
            !Self::admits(value),
        ensures
            Self::outcome(value) == Err::<Self, OutOfBoundsInclusive<i8>>(
                (OutOfBoundsInclusive { lower: Self::lower(), upper: Self::upper(), given: value }),
            ),
    {
    }

    /// A bounded value made from `value` equals the plain `value`.
    pub proof fn lemma_equals_plain(value: i8)
        requires
            Self::admits(value),
        ensures
            Self::outcome(value)->Ok_0.eq_spec(&value),
    {
    }

    /// Values of two types of this shape whose bounds differ never share a label, not even
    /// where they hold the same integer.
    pub proof fn lemma_label_tells_bounds<const LOWER_B: u8, const UPPER_B: u8>(
        self,
        other: ClampedI8Inclusive<LOWER_B, UPPER_B>,
    )
        requires
            LOWER != LOWER_B || UPPER != UPPER_B,
        ensures
            self.label_text() != other.label_text(),
    {
        if self.label_text() == other.label_text() {
            lemma_label_two_injective(
                "ClampedI8Inclusive"@,
                Self::lower() as int,
                Self::upper() as int,
                self@ as int,
                ClampedI8Inclusive::<LOWER_B,
                UPPER_B>::lower() as int,
                ClampedI8Inclusive::<LOWER_B,
                UPPER_B>::upper() as int,
                other@ as int,
            );
        }
    }

    /// A type whose bounds are not in order admits no value.
    pub proof fn lemma_unordered_admits_nothing(value: i8)
        requires
            !Self::bounds_ordered(),
        ensures
            !Self::admits(value),
    {
    }
}

/// The conversion for every type of this shape, also one whose bounds are not in order:
/// such a type refuses every value.
impl<const LOWER: u8, const UPPER: u8> TryFrom<i8> for ClampedI8Inclusive<LOWER, UPPER> {
    type Error = OutOfBoundsInclusive<i8>;

    fn try_from(inner: i8) -> (r: Result<Self, OutOfBoundsInclusive<i8>>) {
        let lower: i8 = i8_from_bits(LOWER);
        let upper: i8 = i8_from_bits(UPPER);
        if lower <= upper {
            Self::try_from(inner)
        } else {
            Err(OutOfBoundsInclusive { lower, upper, given: inner })
        }
    }
}

impl<const LOWER: u8, const UPPER: u8> vstd::std_specs::convert::TryFromSpecImpl<i8>
    for ClampedI8Inclusive<LOWER, UPPER>
{
    open spec fn obeys_try_from_spec() -> bool {
        true
    }

    open spec fn try_from_spec(v: i8) -> Result<Self, OutOfBoundsInclusive<i8>> {
        Self::outcome(v)
    }
}

/// Giving up the bounds: the plain integer that the value holds.
impl<const LOWER: u8, const UPPER: u8> From<ClampedI8Inclusive<LOWER, UPPER>> for i8 {
    fn from(clamped: ClampedI8Inclusive<LOWER, UPPER>) -> (inner: i8) {
        clamped.unclamp()
    }
}

impl<const LOWER: u8, const UPPER: u8>
    vstd::std_specs::convert::FromSpecImpl<ClampedI8Inclusive<LOWER, UPPER>> for i8
{
    open spec fn obeys_from_spec() -> bool {
        true
    }

    open spec fn from_spec(v: ClampedI8Inclusive<LOWER, UPPER>) -> i8 {
        v@
    }
}

impl<const LOWER: u8, const UPPER: u8> PartialEq for ClampedI8Inclusive<LOWER, UPPER> {
    fn eq(&self, other: &Self) -> (r: bool) {
        self.0 == other.0
    }
}

impl<const LOWER: u8, const UPPER: u8> vstd::std_specs::cmp::PartialEqSpecImpl
    for ClampedI8Inclusive<LOWER, UPPER>
{
    open spec fn obeys_eq_spec() -> bool {
        true
    }

    open spec fn eq_spec(&self, other: &Self) -> bool {
        self@ == other@
    }
}

impl<const LOWER: u8, const UPPER: u8> Eq for ClampedI8Inclusive<LOWER, UPPER> {
}

/// A bounded value equals the plain integer that it holds.
impl<const LOWER: u8, const UPPER: u8> PartialEq<i8> for ClampedI8Inclusive<LOWER, UPPER> {
    fn eq(&self, other: &i8) -> (r: bool) {
        self.0 == *other
    }
}

impl<const LOWER: u8, const UPPER: u8> vstd::std_specs::cmp::PartialEqSpecImpl<i8>
    for ClampedI8Inclusive<LOWER, UPPER>
{
    open spec fn obeys_eq_spec() -> bool {
        true
    }

    open spec fn eq_spec(&self, other: &i8) -> bool {
        self@ == *other
    }
}

/// Shows the label: the bounds are part of it.
impl<const LOWER: u8, const UPPER: u8> core::fmt::Debug for ClampedI8Inclusive<LOWER, UPPER> {
    fn fmt(&self, f: &mut core::fmt::Formatter<'_>) -> (r: Result<(), core::fmt::Error>) {
        let text = self.label();
        write_text(f, text.as_str())
    }
}

/// Shows the plain integer.
impl<const LOWER: u8, const UPPER: u8> core::fmt::Display for ClampedI8Inclusive<LOWER, UPPER> {
    fn fmt(&self, f: &mut core::fmt::Formatter<'_>) -> (r: Result<(), core::fmt::Error>) {
        let text = self.0.to_decimal();
        write_text(f, text.as_str())
    }
}

/// An integer bound in the range `..UPPER`: every value below `UPPER`.
/// Each bound is given by its two's-complement bit pattern, as `-3i8 as u8` writes it.
#[derive(Clone, Copy, Hash)]
pub struct ClampedI8To<const UPPER: u8>(i8);

impl<const UPPER: u8> View for ClampedI8To<UPPER> {
    type V = i8;

    closed spec fn view(&self) -> i8 {
        self.0
    }
}

impl<const UPPER: u8> ClampedI8To<UPPER> {
    /// The upper bound.
    pub open spec fn upper() -> i8 {
        i8_of_bits(UPPER)
    }

    /// Whether the range of this type lets `value` in.
    pub open spec fn admits(value: i8) -> bool {
        in_range_to(Self::upper() as int, value as int)
    }

    /// The bounded value that holds `inner`.
    pub closed spec fn holding(inner: i8) -> Self {
        Self(inner)
    }

    /// What converting `inner` yields: the bounded value, or the record of the refusal.
    pub open spec fn outcome(inner: i8) -> Result<Self, OutOfBoundsTo<i8>> {
        match range_to_outcome(Self::upper(), inner) {
            Ok(v) => Ok(Self::holding(v)),
            Err(e) => Err(e),
        }
    }

    /// The text that `Debug` shows: the type with its bounds, then the value.
    pub open spec fn label_text(self) -> Seq<char> {
        label_one("ClampedI8To"@, Self::upper() as int, self@ as int)
    }

    /// Every value of this type lies in the range of the type.
    #[verifier::type_invariant]
    spec fn within_bounds(self) -> bool {
        Self::admits(self.0)
    }

    /// Wraps `inner` without testing it: for a value that has passed the test.
    fn new_unchecked(inner: i8) -> (c: Self)
        requires
            Self::admits(inner),
        ensures
            c == Self::holding(inner),
    {
        Self(inner)
    }

    /// Converts `inner`, if the range lets it in.
    pub fn try_from(inner: i8) -> (r: Result<Self, OutOfBoundsTo<i8>>)
        ensures
            r == Self::outcome(inner),
            Self::admits(inner) ==> r is Ok && r->Ok_0@ == inner,
            !Self::admits(inner) ==> r is Err,
    {
        let upper: i8 = i8_from_bits(UPPER);
        match check_range_to(upper, inner) {
            Ok(v) => Ok(Self::new_unchecked(v)),
            Err(e) => Err(e),
        }
    }

    /// Gives the plain integer back.
    pub fn unclamp(self) -> (inner: i8)
        ensures
            inner == self@,
            Self::admits(inner),
    {
        proof {
            use_type_invariant(&self);
        }
        self.0
    }

    /// Writes the text that `Debug` shows.
    pub fn label(&self) -> (s: String)
        ensures
            s@ == self.label_text(),
    {
        write_label_one("ClampedI8To", i8_from_bits(UPPER), self.0)
    }

    /// The bounded value that holds `inner` shows `inner`.
    pub proof fn lemma_holding_view(inner: i8)
        ensures
            Self::holding(inner)@ == inner,
    {
    }

    /// A value that the range lets in is converted, and comes back unchanged.
    pub proof fn lemma_round_trip(value: i8)
        requires
            Self::admits(value),
        ensures
            Self::outcome(value) is Ok,
            i8::from_spec(Self::outcome(value)->Ok_0) == value,
    {
    }

    /// A value that the range does not let in is refused, and the record holds the bounds
    /// and the value.
    pub proof fn lemma_refusal(value: i8)
        requires
            !Self::admits(value),
        ensures
            Self::outcome(value) == Err::<Self, OutOfBoundsTo<i8>>(
                (OutOfBoundsTo { upper: Self::upper(), given: value }),
            ),
    {
    }

    /// A bounded value made from `value` equals the plain `value`.
    pub proof fn lemma_equals_plain(value: i8)
        requires
            Self::admits(value),
        ensures
            Self::outcome(value)->Ok_0.eq_spec(&value),
    {
    }

    /// Values of two types of this shape whose bounds differ never share a label, not even
    /// where they hold the same integer.
    pub proof fn lemma_label_tells_bounds<const UPPER_B: u8>(
        self,
        other: ClampedI8To<UPPER_B>,
    )
        requires
            UPPER != UPPER_B,
        ensures
            self.label_text() != other.label_text(),
    {
        if self.label_text() == other.label_text() {
            lemma_label_one_injective(
                "ClampedI8To"@,
                Self::upper() as int,
                self@ as int,
                ClampedI8To::<UPPER_B>::upper() as int,
                other@ as int,
            );
        }
    }
}

impl<const UPPER: u8> TryFrom<i8> for ClampedI8To<UPPER> {
    type Error = OutOfBoundsTo<i8>;

    fn try_from(inner: i8) -> (r: Result<Self, OutOfBoundsTo<i8>>) {
        Self::try_from(inner)
    }
}

impl<const UPPER: u8> vstd::std_specs::convert::TryFromSpecImpl<i8> for ClampedI8To<UPPER> {
    open spec fn obeys_try_from_spec() -> bool {
        true
    }

    open spec fn try_from_spec(v: i8) -> Result<Self, OutOfBoundsTo<i8>> {
        Self::outcome(v)
    }
}

/// Giving up the bounds: the plain integer that the value holds.
impl<const UPPER: u8> From<ClampedI8To<UPPER>> for i8 {
    fn from(clamped: ClampedI8To<UPPER>) -> (inner: i8) {
        clamped.unclamp()
    }
}

impl<const UPPER: u8> vstd::std_specs::convert::FromSpecImpl<ClampedI8To<UPPER>> for i8 {
    open spec fn obeys_from_spec() -> bool {
        true
    }

    open spec fn from_spec(v: ClampedI8To<UPPER>) -> i8 {
        v@
    }
}

impl<const UPPER: u8> PartialEq for ClampedI8To<UPPER> {
    fn eq(&self, other: &Self) -> (r: bool) {
        self.0 == other.0
    }
}

impl<const UPPER: u8> vstd::std_specs::cmp::PartialEqSpecImpl for ClampedI8To<UPPER> {
    open spec fn obeys_eq_spec() -> bool {
        true
    }

    open spec fn eq_spec(&self, other: &Self) -> bool {
        self@ == other@
    }
}

impl<const UPPER: u8> Eq for ClampedI8To<UPPER> {
}

/// A bounded value equals the plain integer that it holds.
impl<const UPPER: u8> PartialEq<i8> for ClampedI8To<UPPER> {
    fn eq(&self, other: &i8) -> (r: bool) {
        self.0 == *other
    }
}

impl<const UPPER: u8> vstd::std_specs::cmp::PartialEqSpecImpl<i8> for ClampedI8To<UPPER> {
    open spec fn obeys_eq_spec() -> bool {
        true
    }

    open spec fn eq_spec(&self, other: &i8) -> bool {
        self@ == *other
    }
}

/// Shows the label: the bounds are part of it.
impl<const UPPER: u8> core::fmt::Debug for ClampedI8To<UPPER> {
    fn fmt(&self, f: &mut core::fmt::Formatter<'_>) -> (r: Result<(), core::fmt::Error>) {
        let text = self.label();
        write_text(f, text.as_str())
    }
}

/// Shows the plain integer.
impl<const UPPER: u8> core::fmt::Display for ClampedI8To<UPPER> {
    fn fmt(&self, f: &mut core::fmt::Formatter<'_>) -> (r: Result<(), core::fmt::Error>) {
        let text = self.0.to_decimal();
        write_text(f, text.as_str())
    }
}

/// An integer bound in the range `..=UPPER`: every value up to `UPPER` itself.
/// Each bound is given by its two's-complement bit pattern, as `-3i8 as u8` writes it.
#[derive(Clone, Copy, Hash)]
pub struct ClampedI8ToInclusive<const UPPER: u8>(i8);

impl<const UPPER: u8> View for ClampedI8ToInclusive<UPPER> {
    type V = i8;

    closed spec fn view(&self) -> i8 {
        self.0
    }
}

impl<const UPPER: u8> ClampedI8ToInclusive<UPPER> {
    /// The upper bound.
    pub open spec fn upper() -> i8 {
        i8_of_bits(UPPER)
    }

    /// Whether the range of this type lets `value` in.
    pub open spec fn admits(value: i8) -> bool {
        in_range_to_inclusive(Self::upper() as int, value as int)
    }

    /// The bounded value that holds `inner`.
    pub closed spec fn holding(inner: i8) -> Self {
        Self(inner)
    }

    /// What converting `inner` yields: the bounded value, or the record of the refusal.
    pub open spec fn outcome(inner: i8) -> Result<Self, OutOfBoundsToInclusive<i8>> {
        match range_to_inclusive_outcome(Self::upper(), inner) {
            Ok(v) => Ok(Self::holding(v)),
            Err(e) => Err(e),
        }
    }

    /// The text that `Debug` shows: the type with its bounds, then the value.
    pub open spec fn label_text(self) -> Seq<char> {
        label_one("ClampedI8ToInclusive"@, Self::upper() as int, self@ as int)
    }

    /// Every value of this type lies in the range of the type.
    #[verifier::type_invariant]
    spec fn within_bounds(self) -> bool {
        Self::admits(self.0)
    }

    /// Wraps `inner` without testing it: for a value that has passed the test.
    fn new_unchecked(inner: i8) -> (c: Self)
        requires
            Self::admits(inner),
        ensures
            c == Self::holding(inner),
    {
        Self(inner)
    }

    /// Converts `inner`, if the range lets it in.
    pub fn try_from(inner: i8) -> (r: Result<Self, OutOfBoundsToInclusive<i8>>)
        ensures
            r == Self::outcome(inner),
            Self::admits(inner) ==> r is Ok && r->Ok_0@ == inner,
            !Self::admits(inner) ==> r is Err,
    {
        let upper: i8 = i8_from_bits(UPPER);
        match check_range_to_inclusive(upper, inner) {
            Ok(v) => Ok(Self::new_unchecked(v)),
            Err(e) => Err(e),
        }
    }

    /// Gives the plain integer back.
    pub fn unclamp(self) -> (inner: i8)
        ensures
            inner == self@,
            Self::admits(inner),
    {
        proof {
            use_type_invariant(&self);
        }
        self.0
    }

    /// Writes the text that `Debug` shows.
    pub fn label(&self) -> (s: String)
        ensures
            s@ == self.label_text(),
    {
        write_label_one("ClampedI8ToInclusive", i8_from_bits(UPPER), self.0)
    }

    /// The bounded value that holds `inner` shows `inner`.
    pub proof fn lemma_holding_view(inner: i8)
        ensures
            Self::holding(inner)@ == inner,
    {
    }

    /// A value that the range lets in is converted, and comes back unchanged.
    pub proof fn lemma_round_trip(value: i8)
        requires
            Self::admits(value),
        ensures
            Self::outcome(value) is Ok,
            i8::from_spec(Self::outcome(value)->Ok_0) == value,
    {
    }

    /// A value that the range does not let in is refused, and the record holds the bounds
    /// and the value.
    pub proof fn lemma_refusal(value: i8)
        requires
            !Self::admits(value),
        ensures
            Self::outcome(value) == Err::<Self, OutOfBoundsToInclusive<i8>>(
                (OutOfBoundsToInclusive { upper: Self::upper(), given: value }),
            ),
    {
    }

    /// A bounded value made from `value` equals the plain `value`.
    pub proof fn lemma_equals_plain(value: i8)
        requires
            Self::admits(value),
        ensures
            Self::outcome(value)->Ok_0.eq_spec(&value),
    {
    }

    /// Values of two types of this shape whose bounds differ never share a label, not even
    /// where they hold the same integer.
    pub proof fn lemma_label_tells_bounds<const UPPER_B: u8>(
        self,
        other: ClampedI8ToInclusive<UPPER_B>,
    )
        requires
            UPPER != UPPER_B,
        ensures
            self.label_text() != other.label_text(),
    {
        if self.label_text() == other.label_text() {
            lemma_label_one_injective(
                "ClampedI8ToInclusive"@,
                Self::upper() as int,
                self@ as int,
                ClampedI8ToInclusive::<UPPER_B>::upper() as int,
                other@ as int,
            );
        }
    }
}

impl<const UPPER: u8> TryFrom<i8> for ClampedI8ToInclusive<UPPER> {
    type Error = OutOfBoundsToInclusive<i8>;

    fn try_from(inner: i8) -> (r: Result<Self, OutOfBoundsToInclusive<i8>>) {
        Self::try_from(inner)
    }
}

impl<const UPPER: u8> vstd::std_specs::convert::TryFromSpecImpl<i8>
    for ClampedI8ToInclusive<UPPER>
{
    open spec fn obeys_try_from_spec() -> bool {
        true
    }

    open spec fn try_from_spec(v: i8) -> Result<Self, OutOfBoundsToInclusive<i8>> {
        Self::outcome(v)
    }
}

/// Giving up the bounds: the plain integer that the value holds.
impl<const UPPER: u8> From<ClampedI8ToInclusive<UPPER>> for i8 {
    fn from(clamped: ClampedI8ToInclusive<UPPER>) -> (inner: i8) {
        clamped.unclamp()
    }
}

impl<const UPPER: u8> vstd::std_specs::convert::FromSpecImpl<ClampedI8ToInclusive<UPPER>> for i8 {
    open spec fn obeys_from_spec() -> bool {
        true
    }

    open spec fn from_spec(v: ClampedI8ToInclusive<UPPER>) -> i8 {
        v@
    }
}

impl<const UPPER: u8> PartialEq for ClampedI8ToInclusive<UPPER> {
    fn eq(&self, other: &Self) -> (r: bool) {
        self.0 == other.0
    }
}

impl<const UPPER: u8> vstd::std_specs::cmp::PartialEqSpecImpl for ClampedI8ToInclusive<UPPER> {
    open spec fn obeys_eq_spec() -> bool {
        true
    }

    open spec fn eq_spec(&self, other: &Self) -> bool {
        self@ == other@
    }
}

impl<const UPPER: u8> Eq for ClampedI8ToInclusive<UPPER> {
}

/// A bounded value equals the plain integer that it holds.
impl<const UPPER: u8> PartialEq<i8> for ClampedI8ToInclusive<UPPER> {
    fn eq(&self, other: &i8) -> (r: bool) {
        self.0 == *other
    }
}

impl<const UPPER: u8> vstd::std_specs::cmp::PartialEqSpecImpl<i8> for ClampedI8ToInclusive<UPPER> {
    open spec fn obeys_eq_spec() -> bool {
        true
    }

    open spec fn eq_spec(&self, other: &i8) -> bool {
        self@ == *other
    }
}

/// Shows the label: the bounds are part of it.
impl<const UPPER: u8> core::fmt::Debug for ClampedI8ToInclusive<UPPER> {
    fn fmt(&self, f: &mut core::fmt::Formatter<'_>) -> (r: Result<(), core::fmt::Error>) {
        let text = self.label();
        write_text(f, text.as_str())
    }
}

/// Shows the plain integer.
impl<const UPPER: u8> core::fmt::Display for ClampedI8ToInclusive<UPPER> {
    fn fmt(&self, f: &mut core::fmt::Formatter<'_>) -> (r: Result<(), core::fmt::Error>) {
        let text = self.0.to_decimal();
        write_text(f, text.as_str())
    }
}

} // verus!
