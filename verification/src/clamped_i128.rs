//! The bounded types over `i128`.
use vstd::prelude::*;
use vstd::std_specs::cmp::PartialEqSpec;
use vstd::std_specs::convert::FromSpec;
use crate::bits::{i128_from_bits, i128_of_bits};
use crate::label::{
    label_one, label_two, lemma_label_one_injective, lemma_label_two_injective, write_label_one,
    write_label_two,
};
use crate::error::{
    OutOfBounds, OutOfBoundsFrom, OutOfBoundsInclusive, OutOfBoundsTo, OutOfBoundsToInclusive,
};
use crate::primitive::Primitive;
use crate::range::{
    check_range, check_range_from, check_range_inclusive, check_range_to,
    check_range_to_inclusive, in_range, in_range_from, in_range_inclusive, in_range_to,
    in_range_to_inclusive, range_from_outcome, range_inclusive_outcome, range_outcome,
    range_to_inclusive_outcome, range_to_outcome,
};
use crate::text::write_text;

verus! {

/// An integer bound in the half-open range `LOWER..UPPER`: from `LOWER` on, and below `UPPER`.
/// Each bound is given by its two's-complement bit pattern, as `-3i128 as u128` writes it.
#[derive(Clone, Copy, Hash)]
pub struct ClampedI128<const LOWER: u128, const UPPER: u128>(i128);

impl<const LOWER: u128, const UPPER: u128> View for ClampedI128<LOWER, UPPER> {
    type V = i128;

    closed spec fn view(&self) -> i128 {
        self.0
    }
}

impl<const LOWER: u128, const UPPER: u128> ClampedI128<LOWER, UPPER> {
    /// The lower bound.
    pub open spec fn lower() -> i128 {
        i128_of_bits(LOWER)
    }

    /// The upper bound.
    pub open spec fn upper() -> i128 {
        i128_of_bits(UPPER)
    }

    /// Whether the range of this type lets `value` in.
    pub open spec fn admits(value: i128) -> bool {
        in_range(Self::lower() as int, Self::upper() as int, value as int)
    }

    /// Whether the bounds are in order. Where they are not, the type admits nothing.
    pub open spec fn bounds_ordered() -> bool {
        Self::lower() < Self::upper()
    }

    /// The bounded value that holds `inner`.
    pub closed spec fn holding(inner: i128) -> Self {
        Self(inner)
    }

    /// What converting `inner` yields: the bounded value, or the record of the refusal.
    pub open spec fn outcome(inner: i128) -> Result<Self, OutOfBounds<i128>> {
        match range_outcome(Self::lower(), Self::upper(), inner) {
            Ok(v) => Ok(Self::holding(v)),
            Err(e) => Err(e),
        }
    }

    /// The text that `Debug` shows: the type with its bounds, then the value.
    pub open spec fn label_text(self) -> Seq<char> {
        label_two("ClampedI128"@, Self::lower() as int, Self::upper() as int, self@ as int)
    }

    /// Every value of this type lies in the range of the type.
    #[verifier::type_invariant]
    spec fn within_bounds(self) -> bool {
        Self::admits(self.0)
    }

    /// Wraps `inner` without testing it: for a value that has passed the test.
    fn new_unchecked(inner: i128) -> (c: Self)
        requires
            Self::admits(inner),
        ensures
            c == Self::holding(inner),
    {
        Self(inner)
    }

    /// Converts `inner`, if the range lets it in.
    /// The bounds must be in order: a type whose bounds are not admits nothing, and naming
    /// one is a mistake that this demand brings to light.
    pub fn try_from(inner: i128) -> (r: Result<Self, OutOfBounds<i128>>)
        requires
            Self::bounds_ordered(),
        ensures
            r == Self::outcome(inner),
            Self::admits(inner) ==> r is Ok && r->Ok_0@ == inner,
            !Self::admits(inner) ==> r is Err,
    {
        let lower: i128 = i128_from_bits(LOWER);
        let upper: i128 = i128_from_bits(UPPER);
        match check_range(lower, upper, inner) {
            Ok(v) => Ok(Self::new_unchecked(v)),
            Err(e) => Err(e),
        }
    }

    /// Gives the plain integer back.
    pub fn unclamp(self) -> (inner: i128)
        ensures
            inner == self@,
            Self::admits(inner),
    {
        proof {
            use_type_invariant(&self);
        }
        self.0
    }

    /// Writes the text that `Debug` shows.
    pub fn label(&self) -> (s: String)
        ensures
            s@ == self.label_text(),
    {
        write_label_two("ClampedI128", i128_from_bits(LOWER), i128_from_bits(UPPER), self.0)
    }

    /// The bounded value that holds `inner` shows `inner`.
    pub proof fn lemma_holding_view(inner: i128)
        ensures
            Self::holding(inner)@ == inner,
    {
    }

    /// A value that the range lets in is converted, and comes back unchanged.
    pub proof fn lemma_round_trip(value: i128)
        requires
            Self::admits(value),
        ensures
            Self::outcome(value) is Ok,
            i128::from_spec(Self::outcome(value)->Ok_0) == value,
    {
    }

    /// A value that the range does not let in is refused, and the record holds the bounds
    /// and the value.
    pub proof fn lemma_refusal(value: i128)
        requires
            !Self::admits(value),
        ensures
            Self::outcome(value) == Err::<Self, OutOfBounds<i128>>(
                (OutOfBounds { lower: Self::lower(), upper: Self::upper(), given: value }),
            ),
    {
    }

    /// A bounded value made from `value` equals the plain `value`.
    pub proof fn lemma_equals_plain(value: i128)
        requires
            Self::admits(value),
        ensures
            Self::outcome(value)->Ok_0.eq_spec(&value),
    {
    }

    /// Values of two types of this shape whose bounds differ never share a label, not even
    /// where they hold the same integer.
    pub proof fn lemma_label_tells_bounds<const LOWER_B: u128, const UPPER_B: u128>(
        self,
        other: ClampedI128<LOWER_B, UPPER_B>,
    )
        requires
            LOWER != LOWER_B || UPPER != UPPER_B,
        ensures
            self.label_text() != other.label_text(),
    {
        if self.label_text() == other.label_text() {
            lemma_label_two_injective(
                "ClampedI128"@,
                Self::lower() as int,
                Self::upper() as int,
                self@ as int,
                ClampedI128::<LOWER_B,
                UPPER_B>::lower() as int,
                ClampedI128::<LOWER_B,
                UPPER_B>::upper() as int,
                other@ as int,
            );
        }
    }

    /// A type whose bounds are not in order admits no value.
    pub proof fn lemma_unordered_admits_nothing(value: i128)
        requires
            !Self::bounds_ordered(),
        ensures
            !Self::admits(value),
    {
    }
}

/// The conversion for every type of this shape, also one whose bounds are not in order:
/// such a type refuses every value.
impl<const LOWER: u128, const UPPER: u128> TryFrom<i128> for ClampedI128<LOWER, UPPER> {
    type Error = OutOfBounds<i128>;

    fn try_from(inner: i128) -> (r: Result<Self, OutOfBounds<i128>>) {
        let lower: i128 = i128_from_bits(LOWER);
        let upper: i128 = i128_from_bits(UPPER);
        if lower < upper {
            Self::try_from(inner)
        } else {
            Err(OutOfBounds { lower, upper, given: inner })
        }
    }
}

impl<const LOWER: u128, const UPPER: u128> vstd::std_specs::convert::TryFromSpecImpl<i128>
    for ClampedI128<LOWER, UPPER>
{
    open spec fn obeys_try_from_spec() -> bool {
        true
    }

    open spec fn try_from_spec(v: i128) -> Result<Self, OutOfBounds<i128>> {
        Self::outcome(v)
    }
}

/// Giving up the bounds: the plain integer that the value holds.
impl<const LOWER: u128, const UPPER: u128> From<ClampedI128<LOWER, UPPER>> for i128 {
    fn from(clamped: ClampedI128<LOWER, UPPER>) -> (inner: i128) {
        clamped.unclamp()
    }
}

impl<const LOWER: u128, const UPPER: u128>
    vstd::std_specs::convert::FromSpecImpl<ClampedI128<LOWER, UPPER>> for i128
{
    open spec fn obeys_from_spec() -> bool {
        true
    }

    open spec fn from_spec(v: ClampedI128<LOWER, UPPER>) -> i128 {
        v@
    }
}

impl<const LOWER: u128, const UPPER: u128> PartialEq for ClampedI128<LOWER, UPPER> {
    fn eq(&self, other: &Self) -> (r: bool) {
        self.0 == other.0
    }
}

impl<const LOWER: u128, const UPPER: u128> vstd::std_specs::cmp::PartialEqSpecImpl
    for ClampedI128<LOWER, UPPER>
{
    open spec fn obeys_eq_spec() -> bool {
        true
    }

    open spec fn eq_spec(&self, other: &Self) -> bool {
        self@ == other@
    }
}

impl<const LOWER: u128, const UPPER: u128> Eq for ClampedI128<LOWER, UPPER> {
}

/// A bounded value equals the plain integer that it holds.
impl<const LOWER: u128, const UPPER: u128> PartialEq<i128> for ClampedI128<LOWER, UPPER> {
    fn eq(&self, other: &i128) -> (r: bool) {
        self.0 == *other
    }
}

impl<const LOWER: u128, const UPPER: u128> vstd::std_specs::cmp::PartialEqSpecImpl<i128>
    for ClampedI128<LOWER, UPPER>
{
    open spec fn obeys_eq_spec() -> bool {
        true
    }

    open spec fn eq_spec(&self, other: &i128) -> bool {
        self@ == *other
    }
}

/// Shows the label: the bounds are part of it.
impl<const LOWER: u128, const UPPER: u128> core::fmt::Debug for ClampedI128<LOWER, UPPER> {
    fn fmt(&self, f: &mut core::fmt::Formatter<'_>) -> (r: Result<(), core::fmt::Error>) {
        let text = self.label();
        write_text(f, text.as_str())
    }
}

/// Shows the plain integer.
impl<const LOWER: u128, const UPPER: u128> core::fmt::Display for ClampedI128<LOWER, UPPER> {
    fn fmt(&self, f: &mut core::fmt::Formatter<'_>) -> (r: Result<(), core::fmt::Error>) {
        let text = self.0.to_decimal();
        write_text(f, text.as_str())
    }
}

/// An integer bound in the range `LOWER..`: from `LOWER` on, with no upper end.
/// Each bound is given by its two's-complement bit pattern, as `-3i128 as u128` writes it.
#[derive(Clone, Copy, Hash)]
pub struct ClampedI128From<const LOWER: u128>(i128);

impl<const LOWER: u128> View for ClampedI128From<LOWER> {
    type V = i128;

    closed spec fn view(&self) -> i128 {
        self.0
    }
}

impl<const LOWER: u128> ClampedI128From<LOWER> {
    /// The lower bound.
    pub open spec fn lower() -> i128 {
        i128_of_bits(LOWER)
    }

    /// Whether the range of this type lets `value` in.
    pub open spec fn admits(value: i128) -> bool {
        in_range_from(Self::lower() as int, value as int)
    }

    /// The bounded value that holds `inner`.
    pub closed spec fn holding(inner: i128) -> Self {
        Self(inner)
    }

    /// What converting `inner` yields: the bounded value, or the record of the refusal.
    pub open spec fn outcome(inner: i128) -> Result<Self, OutOfBoundsFrom<i128>> {
        match range_from_outcome(Self::lower(), inner) {
            Ok(v) => Ok(Self::holding(v)),
            Err(e) => Err(e),
        }
    }

    /// The text that `Debug` shows: the type with its bounds, then the value.
    pub open spec fn label_text(self) -> Seq<char> {
        label_one("ClampedI128From"@, Self::lower() as int, self@ as int)
    }

    /// Every value of this type lies in the range of the type.
    #[verifier::type_invariant]
    spec fn within_bounds(self) -> bool {
        Self::admits(self.0)
    }

    /// Wraps `inner` without testing it: for a value that has passed the test.
    fn new_unchecked(inner: i128) -> (c: Self)
        requires
            Self::admits(inner),
        ensures
            c == Self::holding(inner),
    {
        Self(inner)
    }

    /// Converts `inner`, if the range lets it in.
    pub fn try_from(inner: i128) -> (r: Result<Self, OutOfBoundsFrom<i128>>)
        ensures
            r == Self::outcome(inner),
            Self::admits(inner) ==> r is Ok && r->Ok_0@ == inner,
            !Self::admits(inner) ==> r is Err,
    {
        let lower: i128 = i128_from_bits(LOWER);
        match check_range_from(lower, inner) {
            Ok(v) => Ok(Self::new_unchecked(v)),
            Err(e) => Err(e),
        }
    }

    /// Gives the plain integer back.
    pub fn unclamp(self) -> (inner: i128)
        ensures
            inner == self@,
            Self::admits(inner),
    {
        proof {
            use_type_invariant(&self);
        }
        self.0
    }

    /// Writes the text that `Debug` shows.
    pub fn label(&self) -> (s: String)
        ensures
            s@ == self.label_text(),
    {
        write_label_one("ClampedI128From", i128_from_bits(LOWER), self.0)
    }

    /// The bounded value that holds `inner` shows `inner`.
    pub proof fn lemma_holding_view(inner: i128)
        ensures
            Self::holding(inner)@ == inner,
    {
    }

    /// A value that the range lets in is converted, and comes back unchanged.
    pub proof fn lemma_round_trip(value: i128)
        requires
            Self::admits(value),
        ensures
            Self::outcome(value) is Ok,
            i128::from_spec(Self::outcome(value)->Ok_0) == value,
    {
    }

    /// A value that the range does not let in is refused, and the record holds the bounds
    /// and the value.
    pub proof fn lemma_refusal(value: i128)
        requires
            !Self::admits(value),
        ensures
            Self::outcome(value) == Err::<Self, OutOfBoundsFrom<i128>>(
                (OutOfBoundsFrom { lower: Self::lower(), given: value }),
            ),
    {
    }

    /// A bounded value made from `value` equals the plain `value`.
    pub proof fn lemma_equals_plain(value: i128)
        requires
            Self::admits(value),
        ensures
            Self::outcome(value)->Ok_0.eq_spec(&value),
    {
    }

    /// Values of two types of this shape whose bounds differ never share a label, not even
    /// where they hold the same integer.
    pub proof fn lemma_label_tells_bounds<const LOWER_B: u128>(
        self,
        other: ClampedI128From<LOWER_B>,
    )
        requires
            LOWER != LOWER_B,
        ensures
            self.label_text() != other.label_text(),
    {
        if self.label_text() == other.label_text() {
            lemma_label_one_injective(
                "ClampedI128From"@,
                Self::lower() as int,
                self@ as int,
                ClampedI128From::<LOWER_B>::lower() as int,
                other@ as int,
            );
        }
    }
}

impl<const LOWER: u128> TryFrom<i128> for ClampedI128From<LOWER> {
    type Error = OutOfBoundsFrom<i128>;

    fn try_from(inner: i128) -> (r: Result<Self, OutOfBoundsFrom<i128>>) {
        Self::try_from(inner)
    }
}

impl<const LOWER: u128> vstd::std_specs::convert::TryFromSpecImpl<i128> for ClampedI128From<LOWER> {
    open spec fn obeys_try_from_spec() -> bool {
        true
    }

    open spec fn try_from_spec(v: i128) -> Result<Self, OutOfBoundsFrom<i128>> {
        Self::outcome(v)
    }
}

/// Giving up the bounds: the plain integer that the value holds.
impl<const LOWER: u128> From<ClampedI128From<LOWER>> for i128 {
    fn from(clamped: ClampedI128From<LOWER>) -> (inner: i128) {
        clamped.unclamp()
    }
}

impl<const LOWER: u128> vstd::std_specs::convert::FromSpecImpl<ClampedI128From<LOWER>> for i128 {
    open spec fn obeys_from_spec() -> bool {
        true
    }

    open spec fn from_spec(v: ClampedI128From<LOWER>) -> i128 {
        v@
    }
}

impl<const LOWER: u128> PartialEq for ClampedI128From<LOWER> {
    fn eq(&self, other: &Self) -> (r: bool) {
        self.0 == other.0
    }
}

impl<const LOWER: u128> vstd::std_specs::cmp::PartialEqSpecImpl for ClampedI128From<LOWER> {
    open spec fn obeys_eq_spec() -> bool {
        true
    }

    open spec fn eq_spec(&self, other: &Self) -> bool {
        self@ == other@
    }
}

impl<const LOWER: u128> Eq for ClampedI128From<LOWER> {
}

/// A bounded value equals the plain integer that it holds.
impl<const LOWER: u128> PartialEq<i128> for ClampedI128From<LOWER> {
    fn eq(&self, other: &i128) -> (r: bool) {
        self.0 == *other
    }
}

impl<const LOWER: u128> vstd::std_specs::cmp::PartialEqSpecImpl<i128> for ClampedI128From<LOWER> {
    open spec fn obeys_eq_spec() -> bool {
        true
    }

    open spec fn eq_spec(&self, other: &i128) -> bool {
        self@ == *other
    }
}

/// Shows the label: the bounds are part of it.
impl<const LOWER: u128> core::fmt::Debug for ClampedI128From<LOWER> {
    fn fmt(&self, f: &mut core::fmt::Formatter<'_>) -> (r: Result<(), core::fmt::Error>) {
        let text = self.label();
        write_text(f, text.as_str())
    }
}

/// Shows the plain integer.
impl<const LOWER: u128> core::fmt::Display for ClampedI128From<LOWER> {
    fn fmt(&self, f: &mut core::fmt::Formatter<'_>) -> (r: Result<(), core::fmt::Error>) {
        let text = self.0.to_decimal();
        write_text(f, text.as_str())
    }
}

/// An integer bound in the inclusive range `LOWER..=UPPER`: from `LOWER` on, up to `UPPER` itself.
/// Each bound is given by its two's-complement bit pattern, as `-3i128 as u128` writes it.
#[derive(Clone, Copy, Hash)]
pub struct ClampedI128Inclusive<const LOWER: u128, const UPPER: u128>(i128);

impl<const LOWER: u128, const UPPER: u128> View for ClampedI128Inclusive<LOWER, UPPER> {
    type V = i128;

    closed spec fn view(&self) -> i128 {
        self.0
    }
}

impl<const LOWER: u128, const UPPER: u128> ClampedI128Inclusive<LOWER, UPPER> {
    /// The lower bound.
    pub open spec fn lower() -> i128 {
        i128_of_bits(LOWER)
    }

    /// The upper bound.
    pub open spec fn upper() -> i128 {
        i128_of_bits(UPPER)
    }

    /// Whether the range of this type lets `value` in.
    pub open spec fn admits(value: i128) -> bool {
        in_range_inclusive(Self::lower() as int, Self::upper() as int, value as int)
    }

    /// Whether the bounds are in order. Where they are not, the type admits nothing.
    pub open spec fn bounds_ordered() -> bool {
        Self::lower() <= Self::upper()
    }

    /// The bounded value that holds `inner`.
    pub closed spec fn holding(inner: i128) -> Self {
        Self(inner)
    }

    /// What converting `inner` yields: the bounded value, or the record of the refusal.
    pub open spec fn outcome(inner: i128) -> Result<Self, OutOfBoundsInclusive<i128>> {
        match range_inclusive_outcome(Self::lower(), Self::upper(), inner) {
            Ok(v) => Ok(Self::holding(v)),
            Err(e) => Err(e),
        }
    }

    /// The text that `Debug` shows: the type with its bounds, then the value.
    pub open spec fn label_text(self) -> Seq<char> {
        label_two("ClampedI128Inclusive"@, Self::lower() as int, Self::upper() as int, self@ as int)
    }

    /// Every value of this type lies in the range of the type.
    #[verifier::type_invariant]
    spec fn within_bounds(self) -> bool {
        Self::admits(self.0)
    }

    /// Wraps `inner` without testing it: for a value that has passed the test.
    fn new_unchecked(inner: i128) -> (c: Self)
        requires
            Self::admits(inner),
        ensures
            c == Self::holding(inner),
    {
        Self(inner)
    }

    /// Converts `inner`, if the range lets it in.
    /// The bounds must be in order: a type whose bounds are not admits nothing, and naming
    /// one is a mistake that this demand brings to light.
    pub fn try_from(inner: i128) -> (r: Result<Self, OutOfBoundsInclusive<i128>>)
        requires
            Self::bounds_ordered(),
        ensures
            r == Self::outcome(inner),
            Self::admits(inner) ==> r is Ok && r->Ok_0@ == inner,
            !Self::admits(inner) ==> r is Err,
    {
        let lower: i128 = i128_from_bits(LOWER);
        let upper: i128 = i128_from_bits(UPPER);
        match check_range_inclusive(lower, upper, inner) {
            Ok(v) => Ok(Self::new_unchecked(v)),
            Err(e) => Err(e),
        }
    }

    /// Gives the plain integer back.
    pub fn unclamp(self) -> (inner: i128)
        ensures
            inner == self@,
            Self::admits(inner),
    {
        proof {
            use_type_invariant(&self);
        }
        self.0
    }

    /// Writes the text that `Debug` shows.
    pub fn label(&self) -> (s: String)
        ensures
            s@ == self.label_text(),
    {
        write_label_two(
            "ClampedI128Inclusive",
            i128_from_bits(LOWER),
            i128_from_bits(UPPER),
            self.0,
        )
    }

    /// The bounded value that holds `inner` shows `inner`.
    pub proof fn lemma_holding_view(inner: i128)
        ensures
            Self::holding(inner)@ == inner,
    {
    }

    /// A value that the range lets in is converted, and comes back unchanged.
    pub proof fn lemma_round_trip(value: i128)
        requires
            Self::admits(value),
        ensures
            Self::outcome(value) is Ok,
            i128::from_spec(Self::outcome(value)->Ok_0) == value,
    {
    }

    /// A value that the range does not let in is refused, and the record holds the bounds
    /// and the value.
    pub proof fn lemma_refusal(value: i128)
        requires
            !Self::admits(value),
        ensures
            Self::outcome(value) == Err::<Self, OutOfBoundsInclusive<i128>>(
                (OutOfBoundsInclusive { lower: Self::lower(), upper: Self::upper(), given: value }),
            ),
    {
    }

    /// A bounded value made from `value` equals the plain `value`.
    pub proof fn lemma_equals_plain(value: i128)
        requires
            Self::admits(value),
        ensures
            Self::outcome(value)->Ok_0.eq_spec(&value),
    {
    }

    /// Values of two types of this shape whose bounds differ never share a label, not even
    /// where they hold the same integer.
    pub proof fn lemma_label_tells_bounds<const LOWER_B: u128, const UPPER_B: u128>(
        self,
        other: ClampedI128Inclusive<LOWER_B, UPPER_B>,
    )
        requires
            LOWER != LOWER_B || UPPER != UPPER_B,
        ensures
            self.label_text() != other.label_text(),
    {
        if self.label_text() == other.label_text() {
            lemma_label_two_injective(
                "ClampedI128Inclusive"@,
                Self::lower() as int,
                Self::upper() as int,
                self@ as int,
                ClampedI128Inclusive::<LOWER_B,
                UPPER_B>::lower() as int,
                ClampedI128Inclusive::<LOWER_B,
                UPPER_B>::upper() as int,
                other@ as int,
            );
        }
    }

    /// A type whose bounds are not in order admits no value.
    pub proof fn lemma_unordered_admits_nothing(value: i128)
        requires
            !Self::bounds_ordered(),
        ensures
            !Self::admits(value),
    {
    }
}

/// The conversion for every type of this shape, also one whose bounds are not in order:
/// such a type refuses every value.
impl<const LOWER: u128, const UPPER: u128> TryFrom<i128> for ClampedI128Inclusive<LOWER, UPPER> {
    type Error = OutOfBoundsInclusive<i128>;

    fn try_from(inner: i128) -> (r: Result<Self, OutOfBoundsInclusive<i128>>) {
        let lower: i128 = i128_from_bits(LOWER);
        let upper: i128 = i128_from_bits(UPPER);
        if lower <= upper {
            Self::try_from(inner)
        } else {
            Err(OutOfBoundsInclusive { lower, upper, given: inner })
        }
    }
}

impl<const LOWER: u128, const UPPER: u128> vstd::std_specs::convert::TryFromSpecImpl<i128>
    for ClampedI128Inclusive<LOWER, UPPER>
{
    open spec fn obeys_try_from_spec() -> bool {
        true
    }

    open spec fn try_from_spec(v: i128) -> Result<Self, OutOfBoundsInclusive<i128>> {
        Self::outcome(v)
    }
}

/// Giving up the bounds: the plain integer that the value holds.
impl<const LOWER: u128, const UPPER: u128> From<ClampedI128Inclusive<LOWER, UPPER>> for i128 {
    fn from(clamped: ClampedI128Inclusive<LOWER, UPPER>) -> (inner: i128) {
        clamped.unclamp()
    }
}

impl<const LOWER: u128, const UPPER: u128>
    vstd::std_specs::convert::FromSpecImpl<ClampedI128Inclusive<LOWER, UPPER>> for i128
{
    open spec fn obeys_from_spec() -> bool {
        true
    }

    open spec fn from_spec(v: ClampedI128Inclusive<LOWER, UPPER>) -> i128 {
        v@
    }
}

impl<const LOWER: u128, const UPPER: u128> PartialEq for ClampedI128Inclusive<LOWER, UPPER> {
    fn eq(&self, other: &Self) -> (r: bool) {
        self.0 == other.0
    }
}

impl<const LOWER: u128, const UPPER: u128> vstd::std_specs::cmp::PartialEqSpecImpl
    for ClampedI128Inclusive<LOWER, UPPER>
{
    open spec fn obeys_eq_spec() -> bool {
        true
    }

    open spec fn eq_spec(&self, other: &Self) -> bool {
        self@ == other@
    }
}

impl<const LOWER: u128, const UPPER: u128> Eq for ClampedI128Inclusive<LOWER, UPPER> {
}

/// A bounded value equals the plain integer that it holds.
impl<const LOWER: u128, const UPPER: u128> PartialEq<i128> for ClampedI128Inclusive<LOWER, UPPER> {
    fn eq(&self, other: &i128) -> (r: bool) {
        self.0 == *other
    }
}

impl<const LOWER: u128, const UPPER: u128> vstd::std_specs::cmp::PartialEqSpecImpl<i128>
    for ClampedI128Inclusive<LOWER, UPPER>
{
    open spec fn obeys_eq_spec() -> bool {
        true
    }

    open spec fn eq_spec(&self, other: &i128) -> bool {
        self@ == *other
    }
}

/// Shows the label: the bounds are part of it.
impl<const LOWER: u128, const UPPER: u128> core::fmt::Debug for ClampedI128Inclusive<LOWER, UPPER> {
    fn fmt(&self, f: &mut core::fmt::Formatter<'_>) -> (r: Result<(), core::fmt::Error>) {
        let text = self.label();
        write_text(f, text.as_str())
    }
}

/// Shows the plain integer.
impl<const LOWER: u128, const UPPER: u128> core::fmt::Display
    for ClampedI128Inclusive<LOWER, UPPER>
{
    fn fmt(&self, f: &mut core::fmt::Formatter<'_>) -> (r: Result<(), core::fmt::Error>) {
        let text = self.0.to_decimal();
        write_text(f, text.as_str())
    }
}

/// An integer bound in the range `..UPPER`: every value below `UPPER`.
/// Each bound is given by its two's-complement bit pattern, as `-3i128 as u128` writes it.
#[derive(Clone, Copy, Hash)]
pub struct ClampedI128To<const UPPER: u128>(i128);

impl<const UPPER: u128> View for ClampedI128To<UPPER> {
    type V = i128;

    closed spec fn view(&self) -> i128 {
        self.0
    }
}

impl<const UPPER: u128> ClampedI128To<UPPER> {
    /// The upper bound.
    pub open spec fn upper() -> i128 {
        i128_of_bits(UPPER)
    }

    /// Whether the range of this type lets `value` in.
    pub open spec fn admits(value: i128) -> bool {
        in_range_to(Self::upper() as int, value as int)
    }

    /// The bounded value that holds `inner`.
    pub closed spec fn holding(inner: i128) -> Self {
        Self(inner)
    }

    /// What converting `inner` yields: the bounded value, or the record of the refusal.
    pub open spec fn outcome(inner: i128) -> Result<Self, OutOfBoundsTo<i128>> {
        match range_to_outcome(Self::upper(), inner) {
            Ok(v) => Ok(Self::holding(v)),
            Err(e) => Err(e),
        }
    }

    /// The text that `Debug` shows: the type with its bounds, then the value.
    pub open spec fn label_text(self) -> Seq<char> {
        label_one("ClampedI128To"@, Self::upper() as int, self@ as int)
    }

    /// Every value of this type lies in the range of the type.
    #[verifier::type_invariant]
    spec fn within_bounds(self) -> bool {
        Self::admits(self.0)
    }

    /// Wraps `inner` without testing it: for a value that has passed the test.
    fn new_unchecked(inner: i128) -> (c: Self)
        requires
            Self::admits(inner),
        ensures
            c == Self::holding(inner),
    {
        Self(inner)
    }

    /// Converts `inner`, if the range lets it in.
    pub fn try_from(inner: i128) -> (r: Result<Self, OutOfBoundsTo<i128>>)
        ensures
            r == Self::outcome(inner),
            Self::admits(inner) ==> r is Ok && r->Ok_0@ == inner,
            !Self::admits(inner) ==> r is Err,
    {
        let upper: i128 = i128_from_bits(UPPER);
        match check_range_to(upper, inner) {
            Ok(v) => Ok(Self::new_unchecked(v)),
            Err(e) => Err(e),
        }
    }

    /// Gives the plain integer back.
    pub fn unclamp(self) -> (inner: i128)
        ensures
            inner == self@,
            Self::admits(inner),
    {
        proof {
            use_type_invariant(&self);
        }
        self.0
    }

    /// Writes the text that `Debug` shows.
    pub fn label(&self) -> (s: String)
        ensures
            s@ == self.label_text(),
    {
        write_label_one("ClampedI128To", i128_from_bits(UPPER), self.0)
    }

    /// The bounded value that holds `inner` shows `inner`.
    pub proof fn lemma_holding_view(inner: i128)
        ensures
            Self::holding(inner)@ == inner,
    {
    }

    /// A value that the range lets in is converted, and comes back unchanged.
    pub proof fn lemma_round_trip(value: i128)
        requires
            Self::admits(value),
        ensures
            Self::outcome(value) is Ok,
            i128::from_spec(Self::outcome(value)->Ok_0) == value,
    {
    }

    /// A value that the range does not let in is refused, and the record holds the bounds
    /// and the value.
    pub proof fn lemma_refusal(value: i128)
        requires
            !Self::admits(value),
        ensures
            Self::outcome(value) == Err::<Self, OutOfBoundsTo<i128>>(
                (OutOfBoundsTo { upper: Self::upper(), given: value }),
            ),
    {
    }

    /// A bounded value made from `value` equals the plain `value`.
    pub proof fn lemma_equals_plain(value: i128)
        requires
            Self::admits(value),
        ensures
            Self::outcome(value)->Ok_0.eq_spec(&value),
    {
    }

    /// Values of two types of this shape whose bounds differ never share a label, not even
    /// where they hold the same integer.
    pub proof fn lemma_label_tells_bounds<const UPPER_B: u128>(
        self,
        other: ClampedI128To<UPPER_B>,
    )
        requires
            UPPER != UPPER_B,
        ensures
            self.label_text() != other.label_text(),
    {
        if self.label_text() == other.label_text() {
            lemma_label_one_injective(
                "ClampedI128To"@,
                Self::upper() as int,
                self@ as int,
                ClampedI128To::<UPPER_B>::upper() as int,
                other@ as int,
            );
        }
    }
}

impl<const UPPER: u128> TryFrom<i128> for ClampedI128To<UPPER> {
    type Error = OutOfBoundsTo<i128>;

    fn try_from(inner: i128) -> (r: Result<Self, OutOfBoundsTo<i128>>) {
        Self::try_from(inner)
    }
}

impl<const UPPER: u128> vstd::std_specs::convert::TryFromSpecImpl<i128> for ClampedI128To<UPPER> {
    open spec fn obeys_try_from_spec() -> bool {
        true
    }

    open spec fn try_from_spec(v: i128) -> Result<Self, OutOfBoundsTo<i128>> {
        Self::outcome(v)
    }
}

/// Giving up the bounds: the plain integer that the value holds.
impl<const UPPER: u128> From<ClampedI128To<UPPER>> for i128 {
    fn from(clamped: ClampedI128To<UPPER>) -> (inner: i128) {
        clamped.unclamp()
    }
}

impl<const UPPER: u128> vstd::std_specs::convert::FromSpecImpl<ClampedI128To<UPPER>> for i128 {
    open spec fn obeys_from_spec() -> bool {
        true
    }

    open spec fn from_spec(v: ClampedI128To<UPPER>) -> i128 {
        v@
    }
}

impl<const UPPER: u128> PartialEq for ClampedI128To<UPPER> {
    fn eq(&self, other: &Self) -> (r: bool) {
        self.0 == other.0
    }
}

impl<const UPPER: u128> vstd::std_specs::cmp::PartialEqSpecImpl for ClampedI128To<UPPER> {
    open spec fn obeys_eq_spec() -> bool {
        true
    }

    open spec fn eq_spec(&self, other: &Self) -> bool {
        self@ == other@
    }
}

impl<const UPPER: u128> Eq for ClampedI128To<UPPER> {
}

/// A bounded value equals the plain integer that it holds.
impl<const UPPER: u128> PartialEq<i128> for ClampedI128To<UPPER> {
    fn eq(&self, other: &i128) -> (r: bool) {
        self.0 == *other
    }
}

impl<const UPPER: u128> vstd::std_specs::cmp::PartialEqSpecImpl<i128> for ClampedI128To<UPPER> {
    open spec fn obeys_eq_spec() -> bool {
        true
    }

    open spec fn eq_spec(&self, other: &i128) -> bool {
        self@ == *other
    }
}

/// Shows the label: the bounds are part of it.
impl<const UPPER: u128> core::fmt::Debug for ClampedI128To<UPPER> {
    fn fmt(&self, f: &mut core::fmt::Formatter<'_>) -> (r: Result<(), core::fmt::Error>) {
        let text = self.label();
        write_text(f, text.as_str())
    }
}

/// Shows the plain integer.
impl<const UPPER: u128> core::fmt::Display for ClampedI128To<UPPER> {
    fn fmt(&self, f: &mut core::fmt::Formatter<'_>) -> (r: Result<(), core::fmt::Error>) {
        let text = self.0.to_decimal();
        write_text(f, text.as_str())
    }
}

/// An integer bound in the range `..=UPPER`: every value up to `UPPER` itself.
/// Each bound is given by its two's-complement bit pattern, as `-3i128 as u128` writes it.
#[derive(Clone, Copy, Hash)]
pub struct ClampedI128ToInclusive<const UPPER: u128>(i128);

impl<const UPPER: u128> View for ClampedI128ToInclusive<UPPER> {
    type V = i128;

    closed spec fn view(&self) -> i128 {
        self.0
    }
}

impl<const UPPER: u128> ClampedI128ToInclusive<UPPER> {
    /// The upper bound.
    pub open spec fn upper() -> i128 {
        i128_of_bits(UPPER)
    }

    /// Whether the range of this type lets `value` in.
    pub open spec fn admits(value: i128) -> bool {
        in_range_to_inclusive(Self::upper() as int, value as int)
    }

    /// The bounded value that holds `inner`.
    pub closed spec fn holding(inner: i128) -> Self {
        Self(inner)
    }

    /// What converting `inner` yields: the bounded value, or the record of the refusal.
    pub open spec fn outcome(inner: i128) -> Result<Self, OutOfBoundsToInclusive<i128>> {
        match range_to_inclusive_outcome(Self::upper(), inner) {
            Ok(v) => Ok(Self::holding(v)),
            Err(e) => Err(e),
        }
    }

    /// The text that `Debug` shows: the type with its bounds, then the value.
    pub open spec fn label_text(self) -> Seq<char> {
        label_one("ClampedI128ToInclusive"@, Self::upper() as int, self@ as int)
    }

    /// Every value of this type lies in the range of the type.
    #[verifier::type_invariant]
    spec fn within_bounds(self) -> bool {
        Self::admits(self.0)
    }

    /// Wraps `inner` without testing it: for a value that has passed the test.
    fn new_unchecked(inner: i128) -> (c: Self)
        requires
            Self::admits(inner),
        ensures
            c == Self::holding(inner),
    {
        Self(inner)
    }

    /// Converts `inner`, if the range lets it in.
    pub fn try_from(inner: i128) -> (r: Result<Self, OutOfBoundsToInclusive<i128>>)
        ensures
            r == Self::outcome(inner),
            Self::admits(inner) ==> r is Ok && r->Ok_0@ == inner,
            !Self::admits(inner) ==> r is Err,
    {
        let upper: i128 = i128_from_bits(UPPER);
        match check_range_to_inclusive(upper, inner) {
            Ok(v) => Ok(Self::new_unchecked(v)),
            Err(e) => Err(e),
        }
    }

    /// Gives the plain integer back.
    pub fn unclamp(self) -> (inner: i128)
        ensures
            inner == self@,
            Self::admits(inner),
    {
        proof {
            use_type_invariant(&self);
        }
        self.0
    }

    /// Writes the text that `Debug` shows.
    pub fn label(&self) -> (s: String)
        ensures
            s@ == self.label_text(),
    {
        write_label_one("ClampedI128ToInclusive", i128_from_bits(UPPER), self.0)
    }

    /// The bounded value that holds `inner` shows `inner`.
    pub proof fn lemma_holding_view(inner: i128)
        ensures
            Self::holding(inner)@ == inner,
    {
    }

    /// A value that the range lets in is converted, and comes back unchanged.
    pub proof fn lemma_round_trip(value: i128)
        requires
            Self::admits(value),
        ensures
            Self::outcome(value) is Ok,
            i128::from_spec(Self::outcome(value)->Ok_0) == value,
    {
    }

    /// A value that the range does not let in is refused, and the record holds the bounds
    /// and the value.
    pub proof fn lemma_refusal(value: i128)
        requires
            !Self::admits(value),
        ensures
            Self::outcome(value) == Err::<Self, OutOfBoundsToInclusive<i128>>(
                (OutOfBoundsToInclusive { upper: Self::upper(), given: value }),
            ),
    {
    }

    /// A bounded value made from `value` equals the plain `value`.
    pub proof fn lemma_equals_plain(value: i128)
        requires
            Self::admits(value),
        ensures
            Self::outcome(value)->Ok_0.eq_spec(&value),
    {
    }

    /// Values of two types of this shape whose bounds differ never share a label, not even
    /// where they hold the same integer.
    pub proof fn lemma_label_tells_bounds<const UPPER_B: u128>(
        self,
        other: ClampedI128ToInclusive<UPPER_B>,
    )
        requires
            UPPER != UPPER_B,
        ensures
            self.label_text() != other.label_text(),
    {
        if self.label_text() == other.label_text() {
            lemma_label_one_injective(
                "ClampedI128ToInclusive"@,
                Self::upper() as int,
                self@ as int,
                ClampedI128ToInclusive::<UPPER_B>::upper() as int,
                other@ as int,
            );
        }
    }
}

impl<const UPPER: u128> TryFrom<i128> for ClampedI128ToInclusive<UPPER> {
    type Error = OutOfBoundsToInclusive<i128>;

    fn try_from(inner: i128) -> (r: Result<Self, OutOfBoundsToInclusive<i128>>) {
        Self::try_from(inner)
    }
}

impl<const UPPER: u128> vstd::std_specs::convert::TryFromSpecImpl<i128>
    for ClampedI128ToInclusive<UPPER>
{
    open spec fn obeys_try_from_spec() -> bool {
        true
    }

    open spec fn try_from_spec(v: i128) -> Result<Self, OutOfBoundsToInclusive<i128>> {
        Self::outcome(v)
    }
}

/// Giving up the bounds: the plain integer that the value holds.
impl<const UPPER: u128> From<ClampedI128ToInclusive<UPPER>> for i128 {
    fn from(clamped: ClampedI128ToInclusive<UPPER>) -> (inner: i128) {
        clamped.unclamp()
    }
}

impl<const UPPER: u128> vstd::std_specs::convert::FromSpecImpl<ClampedI128ToInclusive<UPPER>>
    for i128
{
    open spec fn obeys_from_spec() -> bool {
        true
    }

    open spec fn from_spec(v: ClampedI128ToInclusive<UPPER>) -> i128 {
        v@
    }
}

impl<const UPPER: u128> PartialEq for ClampedI128ToInclusive<UPPER> {
    fn eq(&self, other: &Self) -> (r: bool) {
        self.0 == other.0
    }
}

impl<const UPPER: u128> vstd::std_specs::cmp::PartialEqSpecImpl for ClampedI128ToInclusive<UPPER> {
    open spec fn obeys_eq_spec() -> bool {
        true
    }

    open spec fn eq_spec(&self, other: &Self) -> bool {
        self@ == other@
    }
}

impl<const UPPER: u128> Eq for ClampedI128ToInclusive<UPPER> {
}

/// A bounded value equals the plain integer that it holds.
impl<const UPPER: u128> PartialEq<i128> for ClampedI128ToInclusive<UPPER> {
    fn eq(&self, other: &i128) -> (r: bool) {
        self.0 == *other
    }
}

impl<const UPPER: u128> vstd::std_specs::cmp::PartialEqSpecImpl<i128>
    for ClampedI128ToInclusive<UPPER>
{
    open spec fn obeys_eq_spec() -> bool {
        true
    }

    open spec fn eq_spec(&self, other: &i128) -> bool {
        self@ == *other
    }
}

/// Shows the label: the bounds are part of it.
impl<const UPPER: u128> core::fmt::Debug for ClampedI128ToInclusive<UPPER> {
    fn fmt(&self, f: &mut core::fmt::Formatter<'_>) -> (r: Result<(), core::fmt::Error>) {
        let text = self.label();
        write_text(f, text.as_str())
    }
}

/// Shows the plain integer.
impl<const UPPER: u128> core::fmt::Display for ClampedI128ToInclusive<UPPER> {
    fn fmt(&self, f: &mut core::fmt::Formatter<'_>) -> (r: Result<(), core::fmt::Error>) {
        let text = self.0.to_decimal();
        write_text(f, text.as_str())
    }
}

} // verus!
