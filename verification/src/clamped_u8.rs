//! The bounded types over `u8`.
use vstd::prelude::*;
use vstd::std_specs::cmp::PartialEqSpec;
use vstd::std_specs::convert::FromSpec;
use crate::label::{
    label_one, label_two, lemma_label_one_injective, lemma_label_two_injective, write_label_one,
    write_label_two,
};
use crate::error::{
    OutOfBounds, OutOfBoundsFrom, OutOfBoundsInclusive, OutOfBoundsTo, OutOfBoundsToInclusive,
};
use crate::primitive::Primitive;
use crate::range::{
    check_range, check_range_from, check_range_inclusive, check_range_to,
    check_range_to_inclusive, in_range, in_range_from, in_range_inclusive, in_range_to,
    in_range_to_inclusive, range_from_outcome, range_inclusive_outcome, range_outcome,
    range_to_inclusive_outcome, range_to_outcome,
};
use crate::text::write_text;

verus! {

/// An integer bound in the half-open range `LOWER..UPPER`: from `LOWER` on, and below `UPPER`.
#[derive(Clone, Copy, Hash)]
pub struct ClampedU8<const LOWER: u8, const UPPER: u8>(u8);

impl<const LOWER: u8, const UPPER: u8> View for ClampedU8<LOWER, UPPER> {
    type V = u8;

    closed spec fn view(&self) -> u8 {
        self.0
    }
}

impl<const LOWER: u8, const UPPER: u8> ClampedU8<LOWER, UPPER> {
    /// Whether the range of this type lets `value` in.
    pub open spec fn admits(value: u8) -> bool {
        in_range(LOWER as int, UPPER as int, value as int)
    }

    /// Whether the bounds are in order. Where they are not, the type admits nothing.
    pub open spec fn bounds_ordered() -> bool {
        LOWER < UPPER
    }

    /// The bounded value that holds `inner`.
    pub closed spec fn holding(inner: u8) -> Self {
        Self(inner)
    }

    /// What converting `inner` yields: the bounded value, or the record of the refusal.
    pub open spec fn outcome(inner: u8) -> Result<Self, OutOfBounds<u8>> {
        match range_outcome(LOWER, UPPER, inner) {
            Ok(v) => Ok(Self::holding(v)),
            Err(e) => Err(e),
        }
    }

    /// The text that `Debug` shows: the type with its bounds, then the value.
    pub open spec fn label_text(self) -> Seq<char> {
        label_two("ClampedU8"@, LOWER as int, UPPER as int, self@ as int)
    }

    /// Every value of this type lies in the range of the type.
    #[verifier::type_invariant]
    spec fn within_bounds(self) -> bool {
        Self::admits(self.0)
    }

    /// Wraps `inner` without testing it: for a value that has passed the test.
    fn new_unchecked(inner: u8) -> (c: Self)
        requires
            Self::admits(inner),
        ensures
            c == Self::holding(inner),
    {
        Self(inner)
    }

    /// Converts `inner`, if the range lets it in.
    /// The bounds must be in order: a type whose bounds are not admits nothing, and naming
    /// one is a mistake that this demand brings to light.
    pub fn try_from(inner: u8) -> (r: Result<Self, OutOfBounds<u8>>)
        requires
            Self::bounds_ordered(),
        ensures
            r == Self::outcome(inner),
            Self::admits(inner) ==> r is Ok && r->Ok_0@ == inner,
            !Self::admits(inner) ==> r is Err,
    {
        let lower: u8 = LOWER;
        let upper: u8 = UPPER;
        match check_range(lower, upper, inner) {
            Ok(v) => Ok(Self::new_unchecked(v)),
            Err(e) => Err(e),
        }
    }

    /// Gives the plain integer back.
    pub fn unclamp(self) -> (inner: u8)
        ensures
            inner == self@,
            Self::admits(inner),
    {
        proof {
            use_type_invariant(&self);
        }
        self.0
    }

    /// Writes the text that `Debug` shows.
    pub fn label(&self) -> (s: String)
        ensures
            s@ == self.label_text(),
    {
        write_label_two("ClampedU8", LOWER, UPPER, self.0)
    }

    /// The bounded value that holds `inner` shows `inner`.
    pub proof fn lemma_holding_view(inner: u8)
        ensures
            Self::holding(inner)@ == inner,
    {
    }

    /// A value that the range lets in is converted, and comes back unchanged.
    pub proof fn lemma_round_trip(value: u8)
        requires
            Self::admits(value),
        ensures
            Self::outcome(value) is Ok,
            u8::from_spec(Self::outcome(value)->Ok_0) == value,
    {
    }

    /// A value that the range does not let in is refused, and the record holds the bounds
    /// and the value.
    pub proof fn lemma_refusal(value: u8)
        requires
            !Self::admits(value),
        ensures
            Self::outcome(value) == Err::<Self, OutOfBounds<u8>>(
                (OutOfBounds { lower: LOWER, upper: UPPER, given: value }),
            ),
    {
    }

    /// A bounded value made from `value` equals the plain `value`.
    pub proof fn lemma_equals_plain(value: u8)
        requires
            Self::admits(value),
        ensures
            Self::outcome(value)->Ok_0.eq_spec(&value),
    {
    }

    /// Values of two types of this shape whose bounds differ never share a label, not even
    /// where they hold the same integer.
    pub proof fn lemma_label_tells_bounds<const LOWER_B: u8, const UPPER_B: u8>(
        self,
        other: ClampedU8<LOWER_B, UPPER_B>,
    )
        requires
            LOWER != LOWER_B || UPPER != UPPER_B,
        ensures
            self.label_text() != other.label_text(),
    {
        if self.label_text() == other.label_text() {
            lemma_label_two_injective(
                "ClampedU8"@,
                LOWER as int,
                UPPER as int,
                self@ as int,
                LOWER_B as int,
                UPPER_B as int,
                other@ as int,
            );
        }
    }

    /// A type whose bounds are not in order admits no value.
    pub proof fn lemma_unordered_admits_nothing(value: u8)
        requires
            !Self::bounds_ordered(),
        ensures
            !Self::admits(value),
    {
    }
}

/// The conversion for every type of this shape, also one whose bounds are not in order:
/// such a type refuses every value.
impl<const LOWER: u8, const UPPER: u8> TryFrom<u8> for ClampedU8<LOWER, UPPER> {
    type Error = OutOfBounds<u8>;

    fn try_from(inner: u8) -> (r: Result<Self, OutOfBounds<u8>>) {
        let lower: u8 = LOWER;
        let upper: u8 = UPPER;
        if lower < upper {
            Self::try_from(inner)
        } else {
            Err(OutOfBounds { lower, upper, given: inner })
        }
    }
}

impl<const LOWER: u8, const UPPER: u8> vstd::std_specs::convert::TryFromSpecImpl<u8>
    for ClampedU8<LOWER, UPPER>
{
    open spec fn obeys_try_from_spec() -> bool {
        true
    }

    open spec fn try_from_spec(v: u8) -> Result<Self, OutOfBounds<u8>> {
        Self::outcome(v)
    }
}

/// Giving up the bounds: the plain integer that the value holds.
impl<const LOWER: u8, const UPPER: u8> From<ClampedU8<LOWER, UPPER>> for u8 {
    fn from(clamped: ClampedU8<LOWER, UPPER>) -> (inner: u8) {
        clamped.unclamp()
    }
}

impl<const LOWER: u8, const UPPER: u8>
    vstd::std_specs::convert::FromSpecImpl<ClampedU8<LOWER, UPPER>> for u8
{
    open spec fn obeys_from_spec() -> bool {
        true
    }

    open spec fn from_spec(v: ClampedU8<LOWER, UPPER>) -> u8 {
        v@
    }
}

impl<const LOWER: u8, const UPPER: u8> PartialEq for ClampedU8<LOWER, UPPER> {
    fn eq(&self, other: &Self) -> (r: bool) {
        self.0 == other.0
    }
}

impl<const LOWER: u8, const UPPER: u8> vstd::std_specs::cmp::PartialEqSpecImpl
    for ClampedU8<LOWER, UPPER>
{
    open spec fn obeys_eq_spec() -> bool {
        true
    }

    open spec fn eq_spec(&self, other: &Self) -> bool {
        self@ == other@
    }
}

impl<const LOWER: u8, const UPPER: u8> Eq for ClampedU8<LOWER, UPPER> {
}

/// A bounded value equals the plain integer that it holds.
impl<const LOWER: u8, const UPPER: u8> PartialEq<u8> for ClampedU8<LOWER, UPPER> {
    fn eq(&self, other: &u8) -> (r: bool) {
        self.0 == *other
    }
}

impl<const LOWER: u8, const UPPER: u8> vstd::std_specs::cmp::PartialEqSpecImpl<u8>
    for ClampedU8<LOWER, UPPER>
{
    open spec fn obeys_eq_spec() -> bool {
        true
    }

    open spec fn eq_spec(&self, other: &u8) -> bool {
        self@ == *other
    }
}

/// Shows the label: the bounds are part of it.
impl<const LOWER: u8, const UPPER: u8> core::fmt::Debug for ClampedU8<LOWER, UPPER> {
    fn fmt(&self, f: &mut core::fmt::Formatter<'_>) -> (r: Result<(), core::fmt::Error>) {
        let text = self.label();
        write_text(f, text.as_str())
    }
}

/// Shows the plain integer.
impl<const LOWER: u8, const UPPER: u8> core::fmt::Display for ClampedU8<LOWER, UPPER> {
    fn fmt(&self, f: &mut core::fmt::Formatter<'_>) -> (r: Result<(), core::fmt::Error>) {
        let text = self.0.to_decimal();
        write_text(f, text.as_str())
    }
}

/// An integer bound in the range `LOWER..`: from `LOWER` on, with no upper end.
#[derive(Clone, Copy, Hash)]
pub struct ClampedU8From<const LOWER: u8>(u8);

impl<const LOWER: u8> View for ClampedU8From<LOWER> {
    type V = u8;

    closed spec fn view(&self) -> u8 {
        self.0
    }
}

impl<const LOWER: u8> ClampedU8From<LOWER> {
    /// Whether the range of this type lets `value` in.
    pub open spec fn admits(value: u8) -> bool {
        in_range_from(LOWER as int, value as int)
    }

    /// The bounded value that holds `inner`.
    pub closed spec fn holding(inner: u8) -> Self {
        Self(inner)
    }

    /// What converting `inner` yields: the bounded value, or the record of the refusal.
    pub open spec fn outcome(inner: u8) -> Result<Self, OutOfBoundsFrom<u8>> {
        match range_from_outcome(LOWER, inner) {
            Ok(v) => Ok(Self::holding(v)),
            Err(e) => Err(e),
        }
    }

    /// The text that `Debug` shows: the type with its bounds, then the value.
    pub open spec fn label_text(self) -> Seq<char> {
        label_one("ClampedU8From"@, LOWER as int, self@ as int)
    }

    /// Every value of this type lies in the range of the type.
    #[verifier::type_invariant]
    spec fn within_bounds(self) -> bool {
        Self::admits(self.0)
    }

    /// Wraps `inner` without testing it: for a value that has passed the test.
    fn new_unchecked(inner: u8) -> (c: Self)
        requires
            Self::admits(inner),
        ensures
            c == Self::holding(inner),
    {
        Self(inner)
    }

    /// Converts `inner`, if the range lets it in.
    pub fn try_from(inner: u8) -> (r: Result<Self, OutOfBoundsFrom<u8>>)
        ensures
            r == Self::outcome(inner),
            Self::admits(inner) ==> r is Ok && r->Ok_0@ == inner,
            !Self::admits(inner) ==> r is Err,
    {
        let lower: u8 = LOWER;
        match check_range_from(lower, inner) {
            Ok(v) => Ok(Self::new_unchecked(v)),
            Err(e) => Err(e),
        }
    }

    /// Gives the plain integer back.
    pub fn unclamp(self) -> (inner: u8)
        ensures
            inner == self@,
            Self::admits(inner),
    {
        proof {
            use_type_invariant(&self);
        }
        self.0
    }

    /// Writes the text that `Debug` shows.
    pub fn label(&self) -> (s: String)
        ensures
            s@ == self.label_text(),
    {
        write_label_one("ClampedU8From", LOWER, self.0)
    }

    /// The bounded value that holds `inner` shows `inner`.
    pub proof fn lemma_holding_view(inner: u8)
        ensures
            Self::holding(inner)@ == inner,
    {
    }

    /// A value that the range lets in is converted, and comes back unchanged.
    pub proof fn lemma_round_trip(value: u8)
        requires
            Self::admits(value),
        ensures
            Self::outcome(value) is Ok,
            u8::from_spec(Self::outcome(value)->Ok_0) == value,
    {
    }

    /// A value that the range does not let in is refused, and the record holds the bounds
    /// and the value.
    pub proof fn lemma_refusal(value: u8)
        requires
            !Self::admits(value),
        ensures
            Self::outcome(value) == Err::<Self, OutOfBoundsFrom<u8>>(
                (OutOfBoundsFrom { lower: LOWER, given: value }),
            ),
    {
    }

    /// A bounded value made from `value` equals the plain `value`.
    pub proof fn lemma_equals_plain(value: u8)
        requires
            Self::admits(value),
        ensures
            Self::outcome(value)->Ok_0.eq_spec(&value),
    {
    }

    /// Values of two types of this shape whose bounds differ never share a label, not even
    /// where they hold the same integer.
    pub proof fn lemma_label_tells_bounds<const LOWER_B: u8>(
        self,
        other: ClampedU8From<LOWER_B>,
    )
        requires
            LOWER != LOWER_B,
        ensures
            self.label_text() != other.label_text(),
    {
        if self.label_text() == other.label_text() {
            lemma_label_one_injective(
                "ClampedU8From"@,
                LOWER as int,
                self@ as int,
                LOWER_B as int,
                other@ as int,
            );
        }
    }
}

impl<const LOWER: u8> TryFrom<u8> for ClampedU8From<LOWER> {
    type Error = OutOfBoundsFrom<u8>;

    fn try_from(inner: u8) -> (r: Result<Self, OutOfBoundsFrom<u8>>) {
        Self::try_from(inner)
    }
}

impl<const LOWER: u8> vstd::std_specs::convert::TryFromSpecImpl<u8> for ClampedU8From<LOWER> {
    open spec fn obeys_try_from_spec() -> bool {
        true
    }

    open spec fn try_from_spec(v: u8) -> Result<Self, OutOfBoundsFrom<u8>> {
        Self::outcome(v)
    }
}

/// Giving up the bounds: the plain integer that the value holds.
impl<const LOWER: u8> From<ClampedU8From<LOWER>> for u8 {
    fn from(clamped: ClampedU8From<LOWER>) -> (inner: u8) {
        clamped.unclamp()
    }
}

impl<const LOWER: u8> vstd::std_specs::convert::FromSpecImpl<ClampedU8From<LOWER>> for u8 {
    open spec fn obeys_from_spec() -> bool {
        true
    }

    open spec fn from_spec(v: ClampedU8From<LOWER>) -> u8 {
        v@
    }
}

impl<const LOWER: u8> PartialEq for ClampedU8From<LOWER> {
    fn eq(&self, other: &Self) -> (r: bool) {
        self.0 == other.0
    }
}

impl<const LOWER: u8> vstd::std_specs::cmp::PartialEqSpecImpl for ClampedU8From<LOWER> {
    open spec fn obeys_eq_spec() -> bool {
        true
    }

    open spec fn eq_spec(&self, other: &Self) -> bool {
        self@ == other@
    }
}

impl<const LOWER: u8> Eq for ClampedU8From<LOWER> {
}

/// A bounded value equals the plain integer that it holds.
impl<const LOWER: u8> PartialEq<u8> for ClampedU8From<LOWER> {
    fn eq(&self, other: &u8) -> (r: bool) {
        self.0 == *other
    }
}

impl<const LOWER: u8> vstd::std_specs::cmp::PartialEqSpecImpl<u8> for ClampedU8From<LOWER> {
    open spec fn obeys_eq_spec() -> bool {
        true
    }

    open spec fn eq_spec(&self, other: &u8) -> bool {
        self@ == *other
    }
}

/// Shows the label: the bounds are part of it.
impl<const LOWER: u8> core::fmt::Debug for ClampedU8From<LOWER> {
    fn fmt(&self, f: &mut core::fmt::Formatter<'_>) -> (r: Result<(), core::fmt::Error>) {
        let text = self.label();
        write_text(f, text.as_str())
    }
}

/// Shows the plain integer.
impl<const LOWER: u8> core::fmt::Display for ClampedU8From<LOWER> {
    fn fmt(&self, f: &mut core::fmt::Formatter<'_>) -> (r: Result<(), core::fmt::Error>) {
        let text = self.0.to_decimal();
        write_text(f, text.as_str())
    }
}

/// An integer bound in the inclusive range `LOWER..=UPPER`: from `LOWER` on, up to `UPPER` itself.
#[derive(Clone, Copy, Hash)]
pub struct ClampedU8Inclusive<const LOWER: u8, const UPPER: u8>(u8);

impl<const LOWER: u8, const UPPER: u8> View for ClampedU8Inclusive<LOWER, UPPER> {
    type V = u8;

    closed spec fn view(&self) -> u8 {
        self.0
    }
}

impl<const LOWER: u8, const UPPER: u8> ClampedU8Inclusive<LOWER, UPPER> {
    /// Whether the range of this type lets `value` in.
    pub open spec fn admits(value: u8) -> bool {
        in_range_inclusive(LOWER as int, UPPER as int, value as int)
    }

    /// Whether the bounds are in order. Where they are not, the type admits nothing.
    pub open spec fn bounds_ordered() -> bool {
        LOWER <= UPPER
    }

    /// The bounded value that holds `inner`.
    pub closed spec fn holding(inner: u8) -> Self {
        Self(inner)
    }

    /// What converting `inner` yields: the bounded value, or the record of the refusal.
    pub open spec fn outcome(inner: u8) -> Result<Self, OutOfBoundsInclusive<u8>> {
        match range_inclusive_outcome(LOWER, UPPER, inner) {
            Ok(v) => Ok(Self::holding(v)),
            Err(e) => Err(e),
        }
    }

    /// The text that `Debug` shows: the type with its bounds, then the value.
    pub open spec fn label_text(self) -> Seq<char> {
        label_two("ClampedU8Inclusive"@, LOWER as int, UPPER as int, self@ as int)
    }

    /// Every value of this type lies in the range of the type.
    #[verifier::type_invariant]
    spec fn within_bounds(self) -> bool {
        Self::admits(self.0)
    }

    /// Wraps `inner` without testing it: for a value that has passed the test.
    fn new_unchecked(inner: u8) -> (c: Self)
        requires
            Self::admits(inner),
        ensures
            c == Self::holding(inner),
    {
        Self(inner)
    }

    /// Converts `inner`, if the range lets it in.
    /// The bounds must be in order: a type whose bounds are not admits nothing, and naming
    /// one is a mistake that this demand brings to light.
    pub fn try_from(inner: u8) -> (r: Result<Self, OutOfBoundsInclusive<u8>>)
        requires
            Self::bounds_ordered(),
        ensures
            r == Self::outcome(inner),
            Self::admits(inner) ==> r is Ok && r->Ok_0@ == inner,
            !Self::admits(inner) ==> r is Err,
    {
        let lower: u8 = LOWER;
        let upper: u8 = UPPER;
        match check_range_inclusive(lower, upper, inner) {
            Ok(v) => Ok(Self::new_unchecked(v)),
            Err(e) => Err(e),
        }
    }

    /// Gives the plain integer back.
    pub fn unclamp(self) -> (inner: u8)
        ensures
            inner == self@,
            Self::admits(inner),
    {
        proof {
            use_type_invariant(&self);
        }
        self.0
    }

    /// Writes the text that `Debug` shows.
    pub fn label(&self) -> (s: String)
        ensures
            s@ == self.label_text(),
    {
        write_label_two("ClampedU8Inclusive", LOWER, UPPER, self.0)
    }

    /// The bounded value that holds `inner` shows `inner`.
    pub proof fn lemma_holding_view(inner: u8)
        ensures
            Self::holding(inner)@ == inner,
    {
    }

    /// A value that the range lets in is converted, and comes back unchanged.
    pub proof fn lemma_round_trip(value: u8)
        requires
            Self::admits(value),
        ensures
            Self::outcome(value) is Ok,
            u8::from_spec(Self::outcome(value)->Ok_0) == value,
    {
    }

    /// A value that the range does not let in is refused, and the record holds the bounds
    /// and the value.
    pub proof fn lemma_refusal(value: u8)
        requires
            !Self::admits(value),
        ensures
            Self::outcome(value) == Err::<Self, OutOfBoundsInclusive<u8>>(
                (OutOfBoundsInclusive { lower: LOWER, upper: UPPER, given: value }),
            ),
    {
    }

    /// A bounded value made from `value` equals the plain `value`.
    pub proof fn lemma_equals_plain(value: u8)
        requires
            Self::admits(value),
        ensures
            Self::outcome(value)->Ok_0.eq_spec(&value),
    {
    }

    /// Values of two types of this shape whose bounds differ never share a label, not even
    /// where they hold the same integer.
    pub proof fn lemma_label_tells_bounds<const LOWER_B: u8, const UPPER_B: u8>(
        self,
        other: ClampedU8Inclusive<LOWER_B, UPPER_B>,
    )
        requires
            LOWER != LOWER_B || UPPER != UPPER_B,
        ensures
            self.label_text() != other.label_text(),
    {
        if self.label_text() == other.label_text() {
            lemma_label_two_injective(
                "ClampedU8Inclusive"@,
                LOWER as int,
                UPPER as int,
                self@ as int,
                LOWER_B as int,
                UPPER_B as int,
                other@ as int,
            );
        }
    }

    /// A type whose bounds are not in order admits no value.
    pub proof fn lemma_unordered_admits_nothing(value: u8)
        requires
            !Self::bounds_ordered(),
        ensures
            !Self::admits(value),
    {
    }
}

/// The conversion for every type of this shape, also one whose bounds are not in order:
/// such a type refuses every value.
impl<const LOWER: u8, const UPPER: u8> TryFrom<u8> for ClampedU8Inclusive<LOWER, UPPER> {
    type Error = OutOfBoundsInclusive<u8>;

    fn try_from(inner: u8) -> (r: Result<Self, OutOfBoundsInclusive<u8>>) {
        let lower: u8 = LOWER;
        let upper: u8 = UPPER;
        if lower <= upper {
            Self::try_from(inner)
        } else {
            Err(OutOfBoundsInclusive { lower, upper, given: inner })
        }
    }
}

impl<const LOWER: u8, const UPPER: u8> vstd::std_specs::convert::TryFromSpecImpl<u8>
    for ClampedU8Inclusive<LOWER, UPPER>
{
    open spec fn obeys_try_from_spec() -> bool {
        true
    }

    open spec fn try_from_spec(v: u8) -> Result<Self, OutOfBoundsInclusive<u8>> {
        Self::outcome(v)
    }
}

/// Giving up the bounds: the plain integer that the value holds.
impl<const LOWER: u8, const UPPER: u8> From<ClampedU8Inclusive<LOWER, UPPER>> for u8 {
    fn from(clamped: ClampedU8Inclusive<LOWER, UPPER>) -> (inner: u8) {
        clamped.unclamp()
    }
}

impl<const LOWER: u8, const UPPER: u8>
    vstd::std_specs::convert::FromSpecImpl<ClampedU8Inclusive<LOWER, UPPER>> for u8
{
    open spec fn obeys_from_spec() -> bool {
        true
    }

    open spec fn from_spec(v: ClampedU8Inclusive<LOWER, UPPER>) -> u8 {
        v@
    }
}

impl<const LOWER: u8, const UPPER: u8> PartialEq for ClampedU8Inclusive<LOWER, UPPER> {
    fn eq(&self, other: &Self) -> (r: bool) {
        self.0 == other.0
    }
}

impl<const LOWER: u8, const UPPER: u8> vstd::std_specs::cmp::PartialEqSpecImpl
    for ClampedU8Inclusive<LOWER, UPPER>
{
    open spec fn obeys_eq_spec() -> bool {
        true
    }

    open spec fn eq_spec(&self, other: &Self) -> bool {
        self@ == other@
    }
}

impl<const LOWER: u8, const UPPER: u8> Eq for ClampedU8Inclusive<LOWER, UPPER> {
}

/// A bounded value equals the plain integer that it holds.
impl<const LOWER: u8, const UPPER: u8> PartialEq<u8> for ClampedU8Inclusive<LOWER, UPPER> {
    fn eq(&self, other: &u8) -> (r: bool) {
        self.0 == *other
    }
}

impl<const LOWER: u8, const UPPER: u8> vstd::std_specs::cmp::PartialEqSpecImpl<u8>
    for ClampedU8Inclusive<LOWER, UPPER>
{
    open spec fn obeys_eq_spec() -> bool {
        true
    }

    open spec fn eq_spec(&self, other: &u8) -> bool {
        self@ == *other
    }
}

/// Shows the label: the bounds are part of it.
impl<const LOWER: u8, const UPPER: u8> core::fmt::Debug for ClampedU8Inclusive<LOWER, UPPER> {
    fn fmt(&self, f: &mut core::fmt::Formatter<'_>) -> (r: Result<(), core::fmt::Error>) {
        let text = self.label();
        write_text(f, text.as_str())
    }
}

/// Shows the plain integer.
impl<const LOWER: u8, const UPPER: u8> core::fmt::Display for ClampedU8Inclusive<LOWER, UPPER> {
    fn fmt(&self, f: &mut core::fmt::Formatter<'_>) -> (r: Result<(), core::fmt::Error>) {
        let text = self.0.to_decimal();
        write_text(f, text.as_str())
    }
}

/// An integer bound in the range `..UPPER`: every value below `UPPER`.
#[derive(Clone, Copy, Hash)]
pub struct ClampedU8To<const UPPER: u8>(u8);

impl<const UPPER: u8> View for ClampedU8To<UPPER> {
    type V = u8;

    closed spec fn view(&self) -> u8 {
        self.0
    }
}

impl<const UPPER: u8> ClampedU8To<UPPER> {
    /// Whether the range of this type lets `value` in.
    pub open spec fn admits(value: u8) -> bool {
        in_range_to(UPPER as int, value as int)
    }

    /// The bounded value that holds `inner`.
    pub closed spec fn holding(inner: u8) -> Self {
        Self(inner)
    }

    /// What converting `inner` yields: the bounded value, or the record of the refusal.
    pub open spec fn outcome(inner: u8) -> Result<Self, OutOfBoundsTo<u8>> {
        match range_to_outcome(UPPER, inner) {
            Ok(v) => Ok(Self::holding(v)),
            Err(e) => Err(e),
        }
    }

    /// The text that `Debug` shows: the type with its bounds, then the value.
    pub open spec fn label_text(self) -> Seq<char> {
        label_one("ClampedU8To"@, UPPER as int, self@ as int)
    }

    /// Every value of this type lies in the range of the type.
    #[verifier::type_invariant]
    spec fn within_bounds(self) -> bool {
        Self::admits(self.0)
    }

    /// Wraps `inner` without testing it: for a value that has passed the test.
    fn new_unchecked(inner: u8) -> (c: Self)
        requires
            Self::admits(inner),
        ensures
            c == Self::holding(inner),
    {
        Self(inner)
    }

    /// Converts `inner`, if the range lets it in.
    pub fn try_from(inner: u8) -> (r: Result<Self, OutOfBoundsTo<u8>>)
        ensures
            r == Self::outcome(inner),
            Self::admits(inner) ==> r is Ok && r->Ok_0@ == inner,
            !Self::admits(inner) ==> r is Err,
    {
        let upper: u8 = UPPER;
        match check_range_to(upper, inner) {
            Ok(v) => Ok(Self::new_unchecked(v)),
            Err(e) => Err(e),
        }
    }

    /// Gives the plain integer back.
    pub fn unclamp(self) -> (inner: u8)
        ensures
            inner == self@,
            Self::admits(inner),
    {
        proof {
            use_type_invariant(&self);
        }
        self.0
    }

    /// Writes the text that `Debug` shows.
    pub fn label(&self) -> (s: String)
        ensures
            s@ == self.label_text(),
    {
        write_label_one("ClampedU8To", UPPER, self.0)
    }

    /// The bounded value that holds `inner` shows `inner`.
    pub proof fn lemma_holding_view(inner: u8)
        ensures
            Self::holding(inner)@ == inner,
    {
    }

    /// A value that the range lets in is converted, and comes back unchanged.
    pub proof fn lemma_round_trip(value: u8)
        requires
            Self::admits(value),
        ensures
            Self::outcome(value) is Ok,
            u8::from_spec(Self::outcome(value)->Ok_0) == value,
    {
    }

    /// A value that the range does not let in is refused, and the record holds the bounds
    /// and the value.
    pub proof fn lemma_refusal(value: u8)
        requires
            !Self::admits(value),
        ensures
            Self::outcome(value) == Err::<Self, OutOfBoundsTo<u8>>(
                (OutOfBoundsTo { upper: UPPER, given: value }),
            ),
    {
    }

    /// A bounded value made from `value` equals the plain `value`.
    pub proof fn lemma_equals_plain(value: u8)
        requires
            Self::admits(value),
        ensures
            Self::outcome(value)->Ok_0.eq_spec(&value),
    {
    }

    /// Values of two types of this shape whose bounds differ never share a label, not even
    /// where they hold the same integer.
    pub proof fn lemma_label_tells_bounds<const UPPER_B: u8>(
        self,
        other: ClampedU8To<UPPER_B>,
    )
        requires
            UPPER != UPPER_B,
        ensures
            self.label_text() != other.label_text(),
    {
        if self.label_text() == other.label_text() {
            lemma_label_one_injective(
                "ClampedU8To"@,
                UPPER as int,
                self@ as int,
                UPPER_B as int,
                other@ as int,
            );
        }
    }
}

impl<const UPPER: u8> TryFrom<u8> for ClampedU8To<UPPER> {
    type Error = OutOfBoundsTo<u8>;

    fn try_from(inner: u8) -> (r: Result<Self, OutOfBoundsTo<u8>>) {
        Self::try_from(inner)
    }
}

impl<const UPPER: u8> vstd::std_specs::convert::TryFromSpecImpl<u8> for ClampedU8To<UPPER> {
    open spec fn obeys_try_from_spec() -> bool {
        true
    }

    open spec fn try_from_spec(v: u8) -> Result<Self, OutOfBoundsTo<u8>> {
        Self::outcome(v)
    }
}

/// Giving up the bounds: the plain integer that the value holds.
impl<const UPPER: u8> From<ClampedU8To<UPPER>> for u8 {
    fn from(clamped: ClampedU8To<UPPER>) -> (inner: u8) {
        clamped.unclamp()
    }
}

impl<const UPPER: u8> vstd::std_specs::convert::FromSpecImpl<ClampedU8To<UPPER>> for u8 {
    open spec fn obeys_from_spec() -> bool {
        true
    }

    open spec fn from_spec(v: ClampedU8To<UPPER>) -> u8 {
        v@
    }
}

impl<const UPPER: u8> PartialEq for ClampedU8To<UPPER> {
    fn eq(&self, other: &Self) -> (r: bool) {
        self.0 == other.0
    }
}

impl<const UPPER: u8> vstd::std_specs::cmp::PartialEqSpecImpl for ClampedU8To<UPPER> {
    open spec fn obeys_eq_spec() -> bool {
        true
    }

    open spec fn eq_spec(&self, other: &Self) -> bool {
        self@ == other@
    }
}

impl<const UPPER: u8> Eq for ClampedU8To<UPPER> {
}

/// A bounded value equals the plain integer that it holds.
impl<const UPPER: u8> PartialEq<u8> for ClampedU8To<UPPER> {
    fn eq(&self, other: &u8) -> (r: bool) {
        self.0 == *other
    }
}

impl<const UPPER: u8> vstd::std_specs::cmp::PartialEqSpecImpl<u8> for ClampedU8To<UPPER> {
    open spec fn obeys_eq_spec() -> bool {
        true
    }

    open spec fn eq_spec(&self, other: &u8) -> bool {
        self@ == *other
    }
}

/// Shows the label: the bounds are part of it.
impl<const UPPER: u8> core::fmt::Debug for ClampedU8To<UPPER> {
    fn fmt(&self, f: &mut core::fmt::Formatter<'_>) -> (r: Result<(), core::fmt::Error>) {
        let text = self.label();
        write_text(f, text.as_str())
    }
}

/// Shows the plain integer.
impl<const UPPER: u8> core::fmt::Display for ClampedU8To<UPPER> {
    fn fmt(&self, f: &mut core::fmt::Formatter<'_>) -> (r: Result<(), core::fmt::Error>) {
        let text = self.0.to_decimal();
        write_text(f, text.as_str())
    }
}

/// An integer bound in the range `..=UPPER`: every value up to `UPPER` itself.
#[derive(Clone, Copy, Hash)]
pub struct ClampedU8ToInclusive<const UPPER: u8>(u8);

impl<const UPPER: u8> View for ClampedU8ToInclusive<UPPER> {
    type V = u8;

    closed spec fn view(&self) -> u8 {
        self.0
    }
}

impl<const UPPER: u8> ClampedU8ToInclusive<UPPER> {
    /// Whether the range of this type lets `value` in.
    pub open spec fn admits(value: u8) -> bool {
        in_range_to_inclusive(UPPER as int, value as int)
    }

    /// The bounded value that holds `inner`.
    pub closed spec fn holding(inner: u8) -> Self {
        Self(inner)
    }

    /// What converting `inner` yields: the bounded value, or the record of the refusal.
    pub open spec fn outcome(inner: u8) -> Result<Self, OutOfBoundsToInclusive<u8>> {
        match range_to_inclusive_outcome(UPPER, inner) {
            Ok(v) => Ok(Self::holding(v)),
            Err(e) => Err(e),
        }
    }

    /// The text that `Debug` shows: the type with its bounds, then the value.
    pub open spec fn label_text(self) -> Seq<char> {
        label_one("ClampedU8ToInclusive"@, UPPER as int, self@ as int)
    }

    /// Every value of this type lies in the range of the type.
    #[verifier::type_invariant]
    spec fn within_bounds(self) -> bool {
        Self::admits(self.0)
    }

    /// Wraps `inner` without testing it: for a value that has passed the test.
    fn new_unchecked(inner: u8) -> (c: Self)
        requires
            Self::admits(inner),
        ensures
            c == Self::holding(inner),
    {
        Self(inner)
    }

    /// Converts `inner`, if the range lets it in.
    pub fn try_from(inner: u8) -> (r: Result<Self, OutOfBoundsToInclusive<u8>>)
        ensures
            r == Self::outcome(inner),
            Self::admits(inner) ==> r is Ok && r->Ok_0@ == inner,
            !Self::admits(inner) ==> r is Err,
    {
        let upper: u8 = UPPER;
        match check_range_to_inclusive(upper, inner) {
            Ok(v) => Ok(Self::new_unchecked(v)),
            Err(e) => Err(e),
        }
    }

    /// Gives the plain integer back.
    pub fn unclamp(self) -> (inner: u8)
        ensures
            inner == self@,
            Self::admits(inner),
    {
        proof {
            use_type_invariant(&self);
        }
        self.0
    }

    /// Writes the text that `Debug` shows.
    pub fn label(&self) -> (s: String)
        ensures
            s@ == self.label_text(),
    {
        write_label_one("ClampedU8ToInclusive", UPPER, self.0)
    }

    /// The bounded value that holds `inner` shows `inner`.
    pub proof fn lemma_holding_view(inner: u8)
        ensures
            Self::holding(inner)@ == inner,
    {
    }

    /// A value that the range lets in is converted, and comes back unchanged.
    pub proof fn lemma_round_trip(value: u8)
        requires
            Self::admits(value),
        ensures
            Self::outcome(value) is Ok,
            u8::from_spec(Self::outcome(value)->Ok_0) == value,
    {
    }

    /// A value that the range does not let in is refused, and the record holds the bounds
    /// and the value.
    pub proof fn lemma_refusal(value: u8)
        requires
            !Self::admits(value),
        ensures
            Self::outcome(value) == Err::<Self, OutOfBoundsToInclusive<u8>>(
                (OutOfBoundsToInclusive { upper: UPPER, given: value }),
            ),
    {
    }

    /// A bounded value made from `value` equals the plain `value`.
    pub proof fn lemma_equals_plain(value: u8)
        requires
            Self::admits(value),
        ensures
            Self::outcome(value)->Ok_0.eq_spec(&value),
    {
    }

    /// Values of two types of this shape whose bounds differ never share a label, not even
    /// where they hold the same integer.
    pub proof fn lemma_label_tells_bounds<const UPPER_B: u8>(
        self,
        other: ClampedU8ToInclusive<UPPER_B>,
    )
        requires
            UPPER != UPPER_B,
        ensures
            self.label_text() != other.label_text(),
    {
        if self.label_text() == other.label_text() {
            lemma_label_one_injective(
                "ClampedU8ToInclusive"@,
                UPPER as int,
                self@ as int,
                UPPER_B as int,
                other@ as int,
            );
        }
    }
}

impl<const UPPER: u8> TryFrom<u8> for ClampedU8ToInclusive<UPPER> {
    type Error = OutOfBoundsToInclusive<u8>;

    fn try_from(inner: u8) -> (r: Result<Self, OutOfBoundsToInclusive<u8>>) {
        Self::try_from(inner)
    }
}

impl<const UPPER: u8> vstd::std_specs::convert::TryFromSpecImpl<u8>
    for ClampedU8ToInclusive<UPPER>
{
    open spec fn obeys_try_from_spec() -> bool {
        true
    }

    open spec fn try_from_spec(v: u8) -> Result<Self, OutOfBoundsToInclusive<u8>> {
        Self::outcome(v)
    }
}

/// Giving up the bounds: the plain integer that the value holds.
impl<const UPPER: u8> From<ClampedU8ToInclusive<UPPER>> for u8 {
    fn from(clamped: ClampedU8ToInclusive<UPPER>) -> (inner: u8) {
        clamped.unclamp()
    }
}

impl<const UPPER: u8> vstd::std_specs::convert::FromSpecImpl<ClampedU8ToInclusive<UPPER>> for u8 {
    open spec fn obeys_from_spec() -> bool {
        true
    }

    open spec fn from_spec(v: ClampedU8ToInclusive<UPPER>) -> u8 {
        v@
    }
}

impl<const UPPER: u8> PartialEq for ClampedU8ToInclusive<UPPER> {
    fn eq(&self, other: &Self) -> (r: bool) {
        self.0 == other.0
    }
}

impl<const UPPER: u8> vstd::std_specs::cmp::PartialEqSpecImpl for ClampedU8ToInclusive<UPPER> {
    open spec fn obeys_eq_spec() -> bool {
        true
    }

    open spec fn eq_spec(&self, other: &Self) -> bool {
        self@ == other@
    }
}

impl<const UPPER: u8> Eq for ClampedU8ToInclusive<UPPER> {
}

/// A bounded value equals the plain integer that it holds.
impl<const UPPER: u8> PartialEq<u8> for ClampedU8ToInclusive<UPPER> {
    fn eq(&self, other: &u8) -> (r: bool) {
        self.0 == *other
    }
}

impl<const UPPER: u8> vstd::std_specs::cmp::PartialEqSpecImpl<u8> for ClampedU8ToInclusive<UPPER> {
    open spec fn obeys_eq_spec() -> bool {
        true
    }

    open spec fn eq_spec(&self, other: &u8) -> bool {
        self@ == *other
    }
}

/// Shows the label: the bounds are part of it.
impl<const UPPER: u8> core::fmt::Debug for ClampedU8ToInclusive<UPPER> {
    fn fmt(&self, f: &mut core::fmt::Formatter<'_>) -> (r: Result<(), core::fmt::Error>) {
        let text = self.label();
        write_text(f, text.as_str())
    }
}

/// Shows the plain integer.
impl<const UPPER: u8> core::fmt::Display for ClampedU8ToInclusive<UPPER> {
    fn fmt(&self, f: &mut core::fmt::Formatter<'_>) -> (r: Result<(), core::fmt::Error>) {
        let text = self.0.to_decimal();
        write_text(f, text.as_str())
    }
}

} // verus!
