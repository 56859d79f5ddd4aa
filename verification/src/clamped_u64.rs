//! The bounded types over `u64`.
use vstd::prelude::*;
use vstd::std_specs::cmp::PartialEqSpec;
use vstd::std_specs::convert::FromSpec;
use crate::label::{
    label_one, label_two, lemma_label_one_injective, lemma_label_two_injective, write_label_one,
    write_label_two,
};
use crate::error::{
    OutOfBounds, OutOfBoundsFrom, OutOfBoundsInclusive, OutOfBoundsTo, OutOfBoundsToInclusive,
};
use crate::primitive::Primitive;
use crate::range::{
    check_range, check_range_from, check_range_inclusive, check_range_to,
    check_range_to_inclusive, in_range, in_range_from, in_range_inclusive, in_range_to,
    in_range_to_inclusive, range_from_outcome, range_inclusive_outcome, range_outcome,
    range_to_inclusive_outcome, range_to_outcome,
};
use crate::text::write_text;

verus! {

/// An integer bound in the half-open range `LOWER..UPPER`: from `LOWER` on, and below `UPPER`.
#[derive(Clone, Copy, Hash)]
pub struct ClampedU64<const LOWER: u64, const UPPER: u64>(u64);

impl<const LOWER: u64, const UPPER: u64> View for ClampedU64<LOWER, UPPER> {
    type V = u64;

    closed spec fn view(&self) -> u64 {
        self.0
    }
}

impl<const LOWER: u64, const UPPER: u64> ClampedU64<LOWER, UPPER> {
    /// Whether the range of this type lets `value` in.
    pub open spec fn admits(value: u64) -> bool {
        in_range(LOWER as int, UPPER as int, value as int)
    }

    /// Whether the bounds are in order. Where they are not, the type admits nothing.
    pub open spec fn bounds_ordered() -> bool {
        LOWER < UPPER
    }

    /// The bounded value that holds `inner`.
    pub closed spec fn holding(inner: u64) -> Self {
        Self(inner)
    }

    /// What converting `inner` yields: the bounded value, or the record of the refusal.
    pub open spec fn outcome(inner: u64) -> Result<Self, OutOfBounds<u64>> {
        match range_outcome(LOWER, UPPER, inner) {
            Ok(v) => Ok(Self::holding(v)),
            Err(e) => Err(e),
        }
    }

    /// The text that `Debug` shows: the type with its bounds, then the value.
    pub open spec fn label_text(self) -> Seq<char> {
        label_two("ClampedU64"@, LOWER as int, UPPER as int, self@ as int)
    }

    /// Every value of this type lies in the range of the type.
    #[verifier::type_invariant]
    spec fn within_bounds(self) -> bool {
        Self::admits(self.0)
    }

    /// Wraps `inner` without testing it: for a value that has passed the test.
    fn new_unchecked(inner: u64) -> (c: Self)
        requires
            Self::admits(inner),
        ensures
            c == Self::holding(inner),
    {
        Self(inner)
    }

    /// Converts `inner`, if the range lets it in.
    /// The bounds must be in order: a type whose bounds are not admits nothing, and naming
    /// one is a mistake that this demand brings to light.
    pub fn try_from(inner: u64) -> (r: Result<Self, OutOfBounds<u64>>)
        requires
            Self::bounds_ordered(),
        ensures
            r == Self::outcome(inner),
            Self::admits(inner) ==> r is Ok && r->Ok_0@ == inner,
            !Self::admits(inner) ==> r is Err,
    {
        let lower: u64 = LOWER;
        let upper: u64 = UPPER;
        match check_range(lower, upper, inner) {
            Ok(v) => Ok(Self::new_unchecked(v)),
            Err(e) => Err(e),
        }
    }

    /// Gives the plain integer back.
    pub fn unclamp(self) -> (inner: u64)
        ensures
            inner == self@,
            Self::admits(inner),
    {
        proof {
            use_type_invariant(&self);
        }
        self.0
    }

    /// Writes the text that `Debug` shows.
    pub fn label(&self) -> (s: String)
        ensures
            s@ == self.label_text(),
    {
        write_label_two("ClampedU64", LOWER, UPPER, self.0)
    }

    /// The bounded value that holds `inner` shows `inner`.
    pub proof fn lemma_holding_view(inner: u64)
        ensures
            Self::holding(inner)@ == inner,
    {
    }

    /// A value that the range lets in is converted, and comes back unchanged.
    pub proof fn lemma_round_trip(value: u64)
        requires
            Self::admits(value),
        ensures
            Self::outcome(value) is Ok,
            u64::from_spec(Self::outcome(value)->Ok_0) == value,
    {
    }

    /// A value that the range does not let in is refused, and the record holds the bounds
    /// and the value.
    pub proof fn lemma_refusal(value: u64)
        requires
            !Self::admits(value),
        ensures
            Self::outcome(value) == Err::<Self, OutOfBounds<u64>>(
                (OutOfBounds { lower: LOWER, upper: UPPER, given: value }),
            ),
    {
    }

    /// A bounded value made from `value` equals the plain `value`.
    pub proof fn lemma_equals_plain(value: u64)
        requires
            Self::admits(value),
        ensures
            Self::outcome(value)->Ok_0.eq_spec(&value),
    {
    }

    /// Values of two types of this shape whose bounds differ never share a label, not even
    /// where they hold the same integer.
    pub proof fn lemma_label_tells_bounds<const LOWER_B: u64, const UPPER_B: u64>(
        self,
        other: ClampedU64<LOWER_B, UPPER_B>,
    )
        requires
            LOWER != LOWER_B || UPPER != UPPER_B,
        ensures
            self.label_text() != other.label_text(),
    {
        if self.label_text() == other.label_text() {
            lemma_label_two_injective(
                "ClampedU64"@,
                LOWER as int,
                UPPER as int,
                self@ as int,
                LOWER_B as int,
                UPPER_B as int,
                other@ as int,
            );
        }
    }

    /// A type whose bounds are not in order admits no value.
    pub proof fn lemma_unordered_admits_nothing(value: u64)
        requires
            !Self::bounds_ordered(),
        ensures
            !Self::admits(value),
    {
    }
}

/// The conversion for every type of this shape, also one whose bounds are not in order:
/// such a type refuses every value.
impl<const LOWER: u64, const UPPER: u64> TryFrom<u64> for ClampedU64<LOWER, UPPER> {
    type Error = OutOfBounds<u64>;

    fn try_from(inner: u64) -> (r: Result<Self, OutOfBounds<u64>>) {
        let lower: u64 = LOWER;
        let upper: u64 = UPPER;
        if lower < upper {
            Self::try_from(inner)
        } else {
            Err(OutOfBounds { lower, upper, given: inner })
        }
    }
}

impl<const LOWER: u64, const UPPER: u64> vstd::std_specs::convert::TryFromSpecImpl<u64>
    for ClampedU64<LOWER, UPPER>
{
    open spec fn obeys_try_from_spec() -> bool {
        true
    }

    open spec fn try_from_spec(v: u64) -> Result<Self, OutOfBounds<u64>> {
        Self::outcome(v)
    }
}

/// Giving up the bounds: the plain integer that the value holds.
impl<const LOWER: u64, const UPPER: u64> From<ClampedU64<LOWER, UPPER>> for u64 {
    fn from(clamped: ClampedU64<LOWER, UPPER>) -> (inner: u64) {
        clamped.unclamp()
    }
}

impl<const LOWER: u64, const UPPER: u64>
    vstd::std_specs::convert::FromSpecImpl<ClampedU64<LOWER, UPPER>> for u64
{
    open spec fn obeys_from_spec() -> bool {
        true
    }

    open spec fn from_spec(v: ClampedU64<LOWER, UPPER>) -> u64 {
        v@
    }
}

impl<const LOWER: u64, const UPPER: u64> PartialEq for ClampedU64<LOWER, UPPER> {
    fn eq(&self, other: &Self) -> (r: bool) {
        self.0 == other.0
    }
}

impl<const LOWER: u64, const UPPER: u64> vstd::std_specs::cmp::PartialEqSpecImpl
    for ClampedU64<LOWER, UPPER>
{
    open spec fn obeys_eq_spec() -> bool {
        true
    }

    open spec fn eq_spec(&self, other: &Self) -> bool {
        self@ == other@
    }
}

impl<const LOWER: u64, const UPPER: u64> Eq for ClampedU64<LOWER, UPPER> {
}

/// A bounded value equals the plain integer that it holds.
impl<const LOWER: u64, const UPPER: u64> PartialEq<u64> for ClampedU64<LOWER, UPPER> {
    fn eq(&self, other: &u64) -> (r: bool) {
        self.0 == *other
    }
}

impl<const LOWER: u64, const UPPER: u64> vstd::std_specs::cmp::PartialEqSpecImpl<u64>
    for ClampedU64<LOWER, UPPER>
{
    open spec fn obeys_eq_spec() -> bool {
        true
    }

    open spec fn eq_spec(&self, other: &u64) -> bool {
        self@ == *other
    }
}

/// Shows the label: the bounds are part of it.
impl<const LOWER: u64, const UPPER: u64> core::fmt::Debug for ClampedU64<LOWER, UPPER> {
    fn fmt(&self, f: &mut core::fmt::Formatter<'_>) -> (r: Result<(), core::fmt::Error>) {
        let text = self.label();
        write_text(f, text.as_str())
    }
}

/// Shows the plain integer.
impl<const LOWER: u64, const UPPER: u64> core::fmt::Display for ClampedU64<LOWER, UPPER> {
    fn fmt(&self, f: &mut core::fmt::Formatter<'_>) -> (r: Result<(), core::fmt::Error>) {
        let text = self.0.to_decimal();
        write_text(f, text.as_str())
    }
}

/// An integer bound in the range `LOWER..`: from `LOWER` on, with no upper end.
#[derive(Clone, Copy, Hash)]
pub struct ClampedU64From<const LOWER: u64>(u64);

impl<const LOWER: u64> View for ClampedU64From<LOWER> {
    type V = u64;

    closed spec fn view(&self) -> u64 {
        self.0
    }
}

impl<const LOWER: u64> ClampedU64From<LOWER> {
    /// Whether the range of this type lets `value` in.
    pub open spec fn admits(value: u64) -> bool {
        in_range_from(LOWER as int, value as int)
    }

    /// The bounded value that holds `inner`.
    pub closed spec fn holding(inner: u64) -> Self {
        Self(inner)
    }

    /// What converting `inner` yields: the bounded value, or the record of the refusal.
    pub open spec fn outcome(inner: u64) -> Result<Self, OutOfBoundsFrom<u64>> {
        match range_from_outcome(LOWER, inner) {
            Ok(v) => Ok(Self::holding(v)),
            Err(e) => Err(e),
        }
    }

    /// The text that `Debug` shows: the type with its bounds, then the value.
    pub open spec fn label_text(self) -> Seq<char> {
        label_one("ClampedU64From"@, LOWER as int, self@ as int)
    }

    /// Every value of this type lies in the range of the type.
    #[verifier::type_invariant]
    spec fn within_bounds(self) -> bool {
        Self::admits(self.0)
    }

    /// Wraps `inner` without testing it: for a value that has passed the test.
    fn new_unchecked(inner: u64) -> (c: Self)
        requires
            Self::admits(inner),
        ensures
            c == Self::holding(inner),
    {
        Self(inner)
    }

    /// Converts `inner`, if the range lets it in.
    pub fn try_from(inner: u64) -> (r: Result<Self, OutOfBoundsFrom<u64>>)
        ensures
            r == Self::outcome(inner),
            Self::admits(inner) ==> r is Ok && r->Ok_0@ == inner,
            !Self::admits(inner) ==> r is Err,
    {
        let lower: u64 = LOWER;
        match check_range_from(lower, inner) {
            Ok(v) => Ok(Self::new_unchecked(v)),
            Err(e) => Err(e),
        }
    }

    /// Gives the plain integer back.
    pub fn unclamp(self) -> (inner: u64)
        ensures
            inner == self@,
            Self::admits(inner),
    {
        proof {
            use_type_invariant(&self);
        }
        self.0
    }

    /// Writes the text that `Debug` shows.
    pub fn label(&self) -> (s: String)
        ensures
            s@ == self.label_text(),
    {
        write_label_one("ClampedU64From", LOWER, self.0)
    }

    /// The bounded value that holds `inner` shows `inner`.
    pub proof fn lemma_holding_view(inner: u64)
        ensures
            Self::holding(inner)@ == inner,
    {
    }

    /// A value that the range lets in is converted, and comes back unchanged.
    pub proof fn lemma_round_trip(value: u64)
        requires
            Self::admits(value),
        ensures
            Self::outcome(value) is Ok,
            u64::from_spec(Self::outcome(value)->Ok_0) == value,
    {
    }

    /// A value that the range does not let in is refused, and the record holds the bounds
    /// and the value.
    pub proof fn lemma_refusal(value: u64)
        requires
            !Self::admits(value),
        ensures
            Self::outcome(value) == Err::<Self, OutOfBoundsFrom<u64>>(
                (OutOfBoundsFrom { lower: LOWER, given: value }),
            ),
    {
    }

    /// A bounded value made from `value` equals the plain `value`.
    pub proof fn lemma_equals_plain(value: u64)
        requires
            Self::admits(value),
        ensures
            Self::outcome(value)->Ok_0.eq_spec(&value),
    {
    }

    /// Values of two types of this shape whose bounds differ never share a label, not even
    /// where they hold the same integer.
    pub proof fn lemma_label_tells_bounds<const LOWER_B: u64>(
        self,
        other: ClampedU64From<LOWER_B>,
    )
        requires
            LOWER != LOWER_B,
        ensures
            self.label_text() != other.label_text(),
    {
        if self.label_text() == other.label_text() {
            lemma_label_one_injective(
                "ClampedU64From"@,
                LOWER as int,
                self@ as int,
                LOWER_B as int,
                other@ as int,
            );
        }
    }
}

impl<const LOWER: u64> TryFrom<u64> for ClampedU64From<LOWER> {
    type Error = OutOfBoundsFrom<u64>;

    fn try_from(inner: u64) -> (r: Result<Self, OutOfBoundsFrom<u64>>) {
        Self::try_from(inner)
    }
}

impl<const LOWER: u64> vstd::std_specs::convert::TryFromSpecImpl<u64> for ClampedU64From<LOWER> {
    open spec fn obeys_try_from_spec() -> bool {
        true
    }

    open spec fn try_from_spec(v: u64) -> Result<Self, OutOfBoundsFrom<u64>> {
        Self::outcome(v)
    }
}

/// Giving up the bounds: the plain integer that the value holds.
impl<const LOWER: u64> From<ClampedU64From<LOWER>> for u64 {
    fn from(clamped: ClampedU64From<LOWER>) -> (inner: u64) {
        clamped.unclamp()
    }
}

impl<const LOWER: u64> vstd::std_specs::convert::FromSpecImpl<ClampedU64From<LOWER>> for u64 {
    open spec fn obeys_from_spec() -> bool {
        true
    }

    open spec fn from_spec(v: ClampedU64From<LOWER>) -> u64 {
        v@
    }
}

impl<const LOWER: u64> PartialEq for ClampedU64From<LOWER> {
    fn eq(&self, other: &Self) -> (r: bool) {
        self.0 == other.0
    }
}

impl<const LOWER: u64> vstd::std_specs::cmp::PartialEqSpecImpl for ClampedU64From<LOWER> {
    open spec fn obeys_eq_spec() -> bool {
        true
    }

    open spec fn eq_spec(&self, other: &Self) -> bool {
        self@ == other@
    }
}

impl<const LOWER: u64> Eq for ClampedU64From<LOWER> {
}

/// A bounded value equals the plain integer that it holds.
impl<const LOWER: u64> PartialEq<u64> for ClampedU64From<LOWER> {
    fn eq(&self, other: &u64) -> (r: bool) {
        self.0 == *other
    }
}

impl<const LOWER: u64> vstd::std_specs::cmp::PartialEqSpecImpl<u64> for ClampedU64From<LOWER> {
    open spec fn obeys_eq_spec() -> bool {
        true
    }

    open spec fn eq_spec(&self, other: &u64) -> bool {
        self@ == *other
    }
}

/// Shows the label: the bounds are part of it.
impl<const LOWER: u64> core::fmt::Debug for ClampedU64From<LOWER> {
    fn fmt(&self, f: &mut core::fmt::Formatter<'_>) -> (r: Result<(), core::fmt::Error>) {
        let text = self.label();
        write_text(f, text.as_str())
    }
}

/// Shows the plain integer.
impl<const LOWER: u64> core::fmt::Display for ClampedU64From<LOWER> {
    fn fmt(&self, f: &mut core::fmt::Formatter<'_>) -> (r: Result<(), core::fmt::Error>) {
        let text = self.0.to_decimal();
        write_text(f, text.as_str())
    }
}

/// An integer bound in the inclusive range `LOWER..=UPPER`: from `LOWER` on, up to `UPPER` itself.
#[derive(Clone, Copy, Hash)]
pub struct ClampedU64Inclusive<const LOWER: u64, const UPPER: u64>(u64);

impl<const LOWER: u64, const UPPER: u64> View for ClampedU64Inclusive<LOWER, UPPER> {
    type V = u64;

    closed spec fn view(&self) -> u64 {
        self.0
    }
}

impl<const LOWER: u64, const UPPER: u64> ClampedU64Inclusive<LOWER, UPPER> {
    /// Whether the range of this type lets `value` in.
    pub open spec fn admits(value: u64) -> bool {
        in_range_inclusive(LOWER as int, UPPER as int, value as int)
    }

    /// Whether the bounds are in order. Where they are not, the type admits nothing.
    pub open spec fn bounds_ordered() -> bool {
        LOWER <= UPPER
    }

    /// The bounded value that holds `inner`.
    pub closed spec fn holding(inner: u64) -> Self {
        Self(inner)
    }

    /// What converting `inner` yields: the bounded value, or the record of the refusal.
    pub open spec fn outcome(inner: u64) -> Result<Self, OutOfBoundsInclusive<u64>> {
        match range_inclusive_outcome(LOWER, UPPER, inner) {
            Ok(v) => Ok(Self::holding(v)),
            Err(e) => Err(e),
        }
    }

    /// The text that `Debug` shows: the type with its bounds, then the value.
    pub open spec fn label_text(self) -> Seq<char> {
        label_two("ClampedU64Inclusive"@, LOWER as int, UPPER as int, self@ as int)
    }

    /// Every value of this type lies in the range of the type.
    #[verifier::type_invariant]
    spec fn within_bounds(self) -> bool {
        Self::admits(self.0)
    }

    /// Wraps `inner` without testing it: for a value that has passed the test.
    fn new_unchecked(inner: u64) -> (c: Self)
        requires
            Self::admits(inner),
        ensures
            c == Self::holding(inner),
    {
        Self(inner)
    }

    /// Converts `inner`, if the range lets it in.
    /// The bounds must be in order: a type whose bounds are not admits nothing, and naming
    /// one is a mistake that this demand brings to light.
    pub fn try_from(inner: u64) -> (r: Result<Self, OutOfBoundsInclusive<u64>>)
        requires
            Self::bounds_ordered(),
        ensures
            r == Self::outcome(inner),
            Self::admits(inner) ==> r is Ok && r->Ok_0@ == inner,
            !Self::admits(inner) ==> r is Err,
    {
        let lower: u64 = LOWER;
        let upper: u64 = UPPER;
        match check_range_inclusive(lower, upper, inner) {
            Ok(v) => Ok(Self::new_unchecked(v)),
            Err(e) => Err(e),
        }
    }

    /// Gives the plain integer back.
    pub fn unclamp(self) -> (inner: u64)
        ensures
            inner == self@,
            Self::admits(inner),
    {
        proof {
            use_type_invariant(&self);
        }
        self.0
    }

    /// Writes the text that `Debug` shows.
    pub fn label(&self) -> (s: String)
        ensures
            s@ == self.label_text(),
    {
        write_label_two("ClampedU64Inclusive", LOWER, UPPER, self.0)
    }

    /// The bounded value that holds `inner` shows `inner`.
    pub proof fn lemma_holding_view(inner: u64)
        ensures
            Self::holding(inner)@ == inner,
    {
    }

    /// A value that the range lets in is converted, and comes back unchanged.
    pub proof fn lemma_round_trip(value: u64)
        requires
            Self::admits(value),
        ensures
            Self::outcome(value) is Ok,
            u64::from_spec(Self::outcome(value)->Ok_0) == value,
    {
    }

    /// A value that the range does not let in is refused, and the record holds the bounds
    /// and the value.
    pub proof fn lemma_refusal(value: u64)
        requires
            !Self::admits(value),
        ensures
            Self::outcome(value) == Err::<Self, OutOfBoundsInclusive<u64>>(
                (OutOfBoundsInclusive { lower: LOWER, upper: UPPER, given: value }),
            ),
    {
    }

    /// A bounded value made from `value` equals the plain `value`.
    pub proof fn lemma_equals_plain(value: u64)
        requires
            Self::admits(value),
        ensures
            Self::outcome(value)->Ok_0.eq_spec(&value),
    {
    }

    /// Values of two types of this shape whose bounds differ never share a label, not even
    /// where they hold the same integer.
    pub proof fn lemma_label_tells_bounds<const LOWER_B: u64, const UPPER_B: u64>(
        self,
        other: ClampedU64Inclusive<LOWER_B, UPPER_B>,
    )
        requires
            LOWER != LOWER_B || UPPER != UPPER_B,
        ensures
            self.label_text() != other.label_text(),
    {
        if self.label_text() == other.label_text() {
            lemma_label_two_injective(
                "ClampedU64Inclusive"@,
                LOWER as int,
                UPPER as int,
                self@ as int,
                LOWER_B as int,
                UPPER_B as int,
                other@ as int,
            );
        }
    }

    /// A type whose bounds are not in order admits no value.
    pub proof fn lemma_unordered_admits_nothing(value: u64)
        requires
            !Self::bounds_ordered(),
        ensures
            !Self::admits(value),
    {
    }
}

/// The conversion for every type of this shape, also one whose bounds are not in order:
/// such a type refuses every value.
impl<const LOWER: u64, const UPPER: u64> TryFrom<u64> for ClampedU64Inclusive<LOWER, UPPER> {
    type Error = OutOfBoundsInclusive<u64>;

    fn try_from(inner: u64) -> (r: Result<Self, OutOfBoundsInclusive<u64>>) {
        let lower: u64 = LOWER;
        let upper: u64 = UPPER;
        if lower <= upper {
            Self::try_from(inner)
        } else {
            Err(OutOfBoundsInclusive { lower, upper, given: inner })
        }
    }
}

impl<const LOWER: u64, const UPPER: u64> vstd::std_specs::convert::TryFromSpecImpl<u64>
    for ClampedU64Inclusive<LOWER, UPPER>
{
    open spec fn obeys_try_from_spec() -> bool {
        true
    }

    open spec fn try_from_spec(v: u64) -> Result<Self, OutOfBoundsInclusive<u64>> {
        Self::outcome(v)
    }
}

/// Giving up the bounds: the plain integer that the value holds.
impl<const LOWER: u64, const UPPER: u64> From<ClampedU64Inclusive<LOWER, UPPER>> for u64 {
    fn from(clamped: ClampedU64Inclusive<LOWER, UPPER>) -> (inner: u64) {
        clamped.unclamp()
    }
}

impl<const LOWER: u64, const UPPER: u64>
    vstd::std_specs::convert::FromSpecImpl<ClampedU64Inclusive<LOWER, UPPER>> for u64
{
    open spec fn obeys_from_spec() -> bool {
        true
    }

    open spec fn from_spec(v: ClampedU64Inclusive<LOWER, UPPER>) -> u64 {
        v@
    }
}

impl<const LOWER: u64, const UPPER: u64> PartialEq for ClampedU64Inclusive<LOWER, UPPER> {
    fn eq(&self, other: &Self) -> (r: bool) {
        self.0 == other.0
    }
}

impl<const LOWER: u64, const UPPER: u64> vstd::std_specs::cmp::PartialEqSpecImpl
    for ClampedU64Inclusive<LOWER, UPPER>
{
    open spec fn obeys_eq_spec() -> bool {
        true
    }

    open spec fn eq_spec(&self, other: &Self) -> bool {
        self@ == other@
    }
}

impl<const LOWER: u64, const UPPER: u64> Eq for ClampedU64Inclusive<LOWER, UPPER> {
}

/// A bounded value equals the plain integer that it holds.
impl<const LOWER: u64, const UPPER: u64> PartialEq<u64> for ClampedU64Inclusive<LOWER, UPPER> {
    fn eq(&self, other: &u64) -> (r: bool) {
        self.0 == *other
    }
}

impl<const LOWER: u64, const UPPER: u64> vstd::std_specs::cmp::PartialEqSpecImpl<u64>
    for ClampedU64Inclusive<LOWER, UPPER>
{
    open spec fn obeys_eq_spec() -> bool {
        true
    }

    open spec fn eq_spec(&self, other: &u64) -> bool {
        self@ == *other
    }
}

/// Shows the label: the bounds are part of it.
impl<const LOWER: u64, const UPPER: u64> core::fmt::Debug for ClampedU64Inclusive<LOWER, UPPER> {
    fn fmt(&self, f: &mut core::fmt::Formatter<'_>) -> (r: Result<(), core::fmt::Error>) {
        let text = self.label();
        write_text(f, text.as_str())
    }
}

/// Shows the plain integer.
impl<const LOWER: u64, const UPPER: u64> core::fmt::Display for ClampedU64Inclusive<LOWER, UPPER> {
    fn fmt(&self, f: &mut core::fmt::Formatter<'_>) -> (r: Result<(), core::fmt::Error>) {
        let text = self.0.to_decimal();
        write_text(f, text.as_str())
    }
}

/// An integer bound in the range `..UPPER`: every value below `UPPER`.
#[derive(Clone, Copy, Hash)]
pub struct ClampedU64To<const UPPER: u64>(u64);

impl<const UPPER: u64> View for ClampedU64To<UPPER> {
    type V = u64;

    closed spec fn view(&self) -> u64 {
        self.0
    }
}

impl<const UPPER: u64> ClampedU64To<UPPER> {
    /// Whether the range of this type lets `value` in.
    pub open spec fn admits(value: u64) -> bool {
        in_range_to(UPPER as int, value as int)
    }

    /// The bounded value that holds `inner`.
    pub closed spec fn holding(inner: u64) -> Self {
        Self(inner)
    }

    /// What converting `inner` yields: the bounded value, or the record of the refusal.
    pub open spec fn outcome(inner: u64) -> Result<Self, OutOfBoundsTo<u64>> {
        match range_to_outcome(UPPER, inner) {
            Ok(v) => Ok(Self::holding(v)),
            Err(e) => Err(e),
        }
    }

    /// The text that `Debug` shows: the type with its bounds, then the value.
    pub open spec fn label_text(self) -> Seq<char> {
        label_one("ClampedU64To"@, UPPER as int, self@ as int)
    }

    /// Every value of this type lies in the range of the type.
    #[verifier::type_invariant]
    spec fn within_bounds(self) -> bool {
        Self::admits(self.0)
    }

    /// Wraps `inner` without testing it: for a value that has passed the test.
    fn new_unchecked(inner: u64) -> (c: Self)
        requires
            Self::admits(inner),
        ensures
            c == Self::holding(inner),
    {
        Self(inner)
    }

    /// Converts `inner`, if the range lets it in.
    pub fn try_from(inner: u64) -> (r: Result<Self, OutOfBoundsTo<u64>>)
        ensures
            r == Self::outcome(inner),
            Self::admits(inner) ==> r is Ok && r->Ok_0@ == inner,
            !Self::admits(inner) ==> r is Err,
    {
        let upper: u64 = UPPER;
        match check_range_to(upper, inner) {
            Ok(v) => Ok(Self::new_unchecked(v)),
            Err(e) => Err(e),
        }
    }

    /// Gives the plain integer back.
    pub fn unclamp(self) -> (inner: u64)
        ensures
            inner == self@,
            Self::admits(inner),
    {
        proof {
            use_type_invariant(&self);
        }
        self.0
    }

    /// Writes the text that `Debug` shows.
    pub fn label(&self) -> (s: String)
        ensures
            s@ == self.label_text(),
    {
        write_label_one("ClampedU64To", UPPER, self.0)
    }

    /// The bounded value that holds `inner` shows `inner`.
    pub proof fn lemma_holding_view(inner: u64)
        ensures
            Self::holding(inner)@ == inner,
    {
    }

    /// A value that the range lets in is converted, and comes back unchanged.
    pub proof fn lemma_round_trip(value: u64)
        requires
            Self::admits(value),
        ensures
            Self::outcome(value) is Ok,
            u64::from_spec(Self::outcome(value)->Ok_0) == value,
    {
    }

    /// A value that the range does not let in is refused, and the record holds the bounds
    /// and the value.
    pub proof fn lemma_refusal(value: u64)
        requires
            !Self::admits(value),
        ensures
            Self::outcome(value) == Err::<Self, OutOfBoundsTo<u64>>(
                (OutOfBoundsTo { upper: UPPER, given: value }),
            ),
    {
    }

    /// A bounded value made from `value` equals the plain `value`.
    pub proof fn lemma_equals_plain(value: u64)
        requires
            Self::admits(value),
        ensures
            Self::outcome(value)->Ok_0.eq_spec(&value),
    {
    }

    /// Values of two types of this shape whose bounds differ never share a label, not even
    /// where they hold the same integer.
    pub proof fn lemma_label_tells_bounds<const UPPER_B: u64>(
        self,
        other: ClampedU64To<UPPER_B>,
    )
        requires
            UPPER != UPPER_B,
        ensures
            self.label_text() != other.label_text(),
    {
        if self.label_text() == other.label_text() {
            lemma_label_one_injective(
                "ClampedU64To"@,
                UPPER as int,
                self@ as int,
                UPPER_B as int,
                other@ as int,
            );
        }
    }
}

impl<const UPPER: u64> TryFrom<u64> for ClampedU64To<UPPER> {
    type Error = OutOfBoundsTo<u64>;

    fn try_from(inner: u64) -> (r: Result<Self, OutOfBoundsTo<u64>>) {
        Self::try_from(inner)
    }
}

impl<const UPPER: u64> vstd::std_specs::convert::TryFromSpecImpl<u64> for ClampedU64To<UPPER> {
    open spec fn obeys_try_from_spec() -> bool {
        true
    }

    open spec fn try_from_spec(v: u64) -> Result<Self, OutOfBoundsTo<u64>> {
        Self::outcome(v)
    }
}

/// Giving up the bounds: the plain integer that the value holds.
impl<const UPPER: u64> From<ClampedU64To<UPPER>> for u64 {
    fn from(clamped: ClampedU64To<UPPER>) -> (inner: u64) {
        clamped.unclamp()
    }
}

impl<const UPPER: u64> vstd::std_specs::convert::FromSpecImpl<ClampedU64To<UPPER>> for u64 {
    open spec fn obeys_from_spec() -> bool {
        true
    }

    open spec fn from_spec(v: ClampedU64To<UPPER>) -> u64 {
        v@
    }
}

impl<const UPPER: u64> PartialEq for ClampedU64To<UPPER> {
    fn eq(&self, other: &Self) -> (r: bool) {
        self.0 == other.0
    }
}

impl<const UPPER: u64> vstd::std_specs::cmp::PartialEqSpecImpl for ClampedU64To<UPPER> {
    open spec fn obeys_eq_spec() -> bool {
        true
    }

    open spec fn eq_spec(&self, other: &Self) -> bool {
        self@ == other@
    }
}

impl<const UPPER: u64> Eq for ClampedU64To<UPPER> {
}

/// A bounded value equals the plain integer that it holds.
impl<const UPPER: u64> PartialEq<u64> for ClampedU64To<UPPER> {
    fn eq(&self, other: &u64) -> (r: bool) {
        self.0 == *other
    }
}

impl<const UPPER: u64> vstd::std_specs::cmp::PartialEqSpecImpl<u64> for ClampedU64To<UPPER> {
    open spec fn obeys_eq_spec() -> bool {
        true
    }

    open spec fn eq_spec(&self, other: &u64) -> bool {
        self@ == *other
    }
}

/// Shows the label: the bounds are part of it.
impl<const UPPER: u64> core::fmt::Debug for ClampedU64To<UPPER> {
    fn fmt(&self, f: &mut core::fmt::Formatter<'_>) -> (r: Result<(), core::fmt::Error>) {
        let text = self.label();
        write_text(f, text.as_str())
    }
}

/// Shows the plain integer.
impl<const UPPER: u64> core::fmt::Display for ClampedU64To<UPPER> {
    fn fmt(&self, f: &mut core::fmt::Formatter<'_>) -> (r: Result<(), core::fmt::Error>) {
        let text = self.0.to_decimal();
        write_text(f, text.as_str())
    }
}

/// An integer bound in the range `..=UPPER`: every value up to `UPPER` itself.
#[derive(Clone, Copy, Hash)]
pub struct ClampedU64ToInclusive<const UPPER: u64>(u64);

impl<const UPPER: u64> View for ClampedU64ToInclusive<UPPER> {
    type V = u64;

    closed spec fn view(&self) -> u64 {
        self.0
    }
}

impl<const UPPER: u64> ClampedU64ToInclusive<UPPER> {
    /// Whether the range of this type lets `value` in.
    pub open spec fn admits(value: u64) -> bool {
        in_range_to_inclusive(UPPER as int, value as int)
    }

    /// The bounded value that holds `inner`.
    pub closed spec fn holding(inner: u64) -> Self {
        Self(inner)
    }

    /// What converting `inner` yields: the bounded value, or the record of the refusal.
    pub open spec fn outcome(inner: u64) -> Result<Self, OutOfBoundsToInclusive<u64>> {
        match range_to_inclusive_outcome(UPPER, inner) {
            Ok(v) => Ok(Self::holding(v)),
            Err(e) => Err(e),
        }
    }

    /// The text that `Debug` shows: the type with its bounds, then the value.
    pub open spec fn label_text(self) -> Seq<char> {
        label_one("ClampedU64ToInclusive"@, UPPER as int, self@ as int)
    }

    /// Every value of this type lies in the range of the type.
    #[verifier::type_invariant]
    spec fn within_bounds(self) -> bool {
        Self::admits(self.0)
    }

    /// Wraps `inner` without testing it: for a value that has passed the test.
    fn new_unchecked(inner: u64) -> (c: Self)
        requires
            Self::admits(inner),
        ensures
            c == Self::holding(inner),
    {
        Self(inner)
    }

    /// Converts `inner`, if the range lets it in.
    pub fn try_from(inner: u64) -> (r: Result<Self, OutOfBoundsToInclusive<u64>>)
        ensures
            r == Self::outcome(inner),
            Self::admits(inner) ==> r is Ok && r->Ok_0@ == inner,
            !Self::admits(inner) ==> r is Err,
    {
        let upper: u64 = UPPER;
        match check_range_to_inclusive(upper, inner) {
            Ok(v) => Ok(Self::new_unchecked(v)),
            Err(e) => Err(e),
        }
    }

    /// Gives the plain integer back.
    pub fn unclamp(self) -> (inner: u64)
        ensures
            inner == self@,
            Self::admits(inner),
    {
        proof {
            use_type_invariant(&self);
        }
        self.0
    }

    /// Writes the text that `Debug` shows.
    pub fn label(&self) -> (s: String)
        ensures
            s@ == self.label_text(),
    {
        write_label_one("ClampedU64ToInclusive", UPPER, self.0)
    }

    /// The bounded value that holds `inner` shows `inner`.
    pub proof fn lemma_holding_view(inner: u64)
        ensures
            Self::holding(inner)@ == inner,
    {
    }

    /// A value that the range lets in is converted, and comes back unchanged.
    pub proof fn lemma_round_trip(value: u64)
        requires
            Self::admits(value),
        ensures
            Self::outcome(value) is Ok,
            u64::from_spec(Self::outcome(value)->Ok_0) == value,
    {
    }

    /// A value that the range does not let in is refused, and the record holds the bounds
    /// and the value.
    pub proof fn lemma_refusal(value: u64)
        requires
            !Self::admits(value),
        ensures
            Self::outcome(value) == Err::<Self, OutOfBoundsToInclusive<u64>>(
                (OutOfBoundsToInclusive { upper: UPPER, given: value }),
            ),
    {
    }

    /// A bounded value made from `value` equals the plain `value`.
    pub proof fn lemma_equals_plain(value: u64)
        requires
            Self::admits(value),
        ensures
            Self::outcome(value)->Ok_0.eq_spec(&value),
    {
    }

    /// Values of two types of this shape whose bounds differ never share a label, not even
    /// where they hold the same integer.
    pub proof fn lemma_label_tells_bounds<const UPPER_B: u64>(
        self,
        other: ClampedU64ToInclusive<UPPER_B>,
    )
        requires
            UPPER != UPPER_B,
        ensures
            self.label_text() != other.label_text(),
    {
        if self.label_text() == other.label_text() {
            lemma_label_one_injective(
                "ClampedU64ToInclusive"@,
                UPPER as int,
                self@ as int,
                UPPER_B as int,
                other@ as int,
            );
        }
    }
}

impl<const UPPER: u64> TryFrom<u64> for ClampedU64ToInclusive<UPPER> {
    type Error = OutOfBoundsToInclusive<u64>;

    fn try_from(inner: u64) -> (r: Result<Self, OutOfBoundsToInclusive<u64>>) {
        Self::try_from(inner)
    }
}

impl<const UPPER: u64> vstd::std_specs::convert::TryFromSpecImpl<u64>
    for ClampedU64ToInclusive<UPPER>
{
    open spec fn obeys_try_from_spec() -> bool {
        true
    }

    open spec fn try_from_spec(v: u64) -> Result<Self, OutOfBoundsToInclusive<u64>> {
        Self::outcome(v)
    }
}

/// Giving up the bounds: the plain integer that the value holds.
impl<const UPPER: u64> From<ClampedU64ToInclusive<UPPER>> for u64 {
    fn from(clamped: ClampedU64ToInclusive<UPPER>) -> (inner: u64) {
        clamped.unclamp()
    }
}

impl<const UPPER: u64> vstd::std_specs::convert::FromSpecImpl<ClampedU64ToInclusive<UPPER>>
    for u64
{
    open spec fn obeys_from_spec() -> bool {
        true
    }

    open spec fn from_spec(v: ClampedU64ToInclusive<UPPER>) -> u64 {
        v@
    }
}

impl<const UPPER: u64> PartialEq for ClampedU64ToInclusive<UPPER> {
    fn eq(&self, other: &Self) -> (r: bool) {
        self.0 == other.0
    }
}

impl<const UPPER: u64> vstd::std_specs::cmp::PartialEqSpecImpl for ClampedU64ToInclusive<UPPER> {
    open spec fn obeys_eq_spec() -> bool {
        true
    }

    open spec fn eq_spec(&self, other: &Self) -> bool {
        self@ == other@
    }
}

impl<const UPPER: u64> Eq for ClampedU64ToInclusive<UPPER> {
}

/// A bounded value equals the plain integer that it holds.
impl<const UPPER: u64> PartialEq<u64> for ClampedU64ToInclusive<UPPER> {
    fn eq(&self, other: &u64) -> (r: bool) {
        self.0 == *other
    }
}

impl<const UPPER: u64> vstd::std_specs::cmp::PartialEqSpecImpl<u64>
    for ClampedU64ToInclusive<UPPER>
{
    open spec fn obeys_eq_spec() -> bool {
        true
    }

    open spec fn eq_spec(&self, other: &u64) -> bool {
        self@ == *other
    }
}

/// Shows the label: the bounds are part of it.
impl<const UPPER: u64> core::fmt::Debug for ClampedU64ToInclusive<UPPER> {
    fn fmt(&self, f: &mut core::fmt::Formatter<'_>) -> (r: Result<(), core::fmt::Error>) {
        let text = self.label();
        write_text(f, text.as_str())
    }
}

/// Shows the plain integer.
impl<const UPPER: u64> core::fmt::Display for ClampedU64ToInclusive<UPPER> {
    fn fmt(&self, f: &mut core::fmt::Formatter<'_>) -> (r: Result<(), core::fmt::Error>) {
        let text = self.0.to_decimal();
        write_text(f, text.as_str())
    }
}

} // verus!
