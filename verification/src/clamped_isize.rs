//! The bounded types over `isize`.
use vstd::prelude::*;
use vstd::std_specs::cmp::PartialEqSpec;
use vstd::std_specs::convert::FromSpec;
use crate::bits::{isize_from_bits, isize_of_bits};
use crate::label::{
    label_one, label_two, lemma_label_one_injective, lemma_label_two_injective, write_label_one,
    write_label_two,
};
use crate::error::{
    OutOfBounds, OutOfBoundsFrom, OutOfBoundsInclusive, OutOfBoundsTo, OutOfBoundsToInclusive,
};
use crate::primitive::Primitive;
use crate::range::{
    check_range, check_range_from, check_range_inclusive, check_range_to,
    check_range_to_inclusive, in_range, in_range_from, in_range_inclusive, in_range_to,
    in_range_to_inclusive, range_from_outcome, range_inclusive_outcome, range_outcome,
    range_to_inclusive_outcome, range_to_outcome,
};
use crate::text::write_text;

verus! {

/// An integer bound in the half-open range `LOWER..UPPER`: from `LOWER` on, and below `UPPER`.
/// Each bound is given by its two's-complement bit pattern, as `-3isize as usize` writes it.
#[derive(Clone, Copy, Hash)]
pub struct ClampedIsize<const LOWER: usize, const UPPER: usize>(isize);

impl<const LOWER: usize, const UPPER: usize> View for ClampedIsize<LOWER, UPPER> {
    type V = isize;

    closed spec fn view(&self) -> isize {
        self.0
    }
}

impl<const LOWER: usize, const UPPER: usize> ClampedIsize<LOWER, UPPER> {
    /// The lower bound.
    pub open spec fn lower() -> isize {
        isize_of_bits(LOWER)
    }

    /// The upper bound.
    pub open spec fn upper() -> isize {
        isize_of_bits(UPPER)
    }

    /// Whether the range of this type lets `value` in.
    pub open spec fn admits(value: isize) -> bool {
        in_range(Self::lower() as int, Self::upper() as int, value as int)
    }

    /// Whether the bounds are in order. Where they are not, the type admits nothing.
    pub open spec fn bounds_ordered() -> bool {
        Self::lower() < Self::upper()
    }

    /// The bounded value that holds `inner`.
    pub closed spec fn holding(inner: isize) -> Self {
        Self(inner)
    }

    /// What converting `inner` yields: the bounded value, or the record of the refusal.
    pub open spec fn outcome(inner: isize) -> Result<Self, OutOfBounds<isize>> {
        match range_outcome(Self::lower(), Self::upper(), inner) {
            Ok(v) => Ok(Self::holding(v)),
            Err(e) => Err(e),
        }
    }

    /// The text that `Debug` shows: the type with its bounds, then the value.
    pub open spec fn label_text(self) -> Seq<char> {
        label_two("ClampedIsize"@, Self::lower() as int, Self::upper() as int, self@ as int)
    }

    /// Every value of this type lies in the range of the type.
    #[verifier::type_invariant]
    spec fn within_bounds(self) -> bool {
        Self::admits(self.0)
    }

    /// Wraps `inner` without testing it: for a value that has passed the test.
    fn new_unchecked(inner: isize) -> (c: Self)
        requires
            Self::admits(inner),
        ensures
            c == Self::holding(inner),
    {
        Self(inner)
    }

    /// Converts `inner`, if the range lets it in.
    /// The bounds must be in order: a type whose bounds are not admits nothing, and naming
    /// one is a mistake that this demand brings to light.
    pub fn try_from(inner: isize) -> (r: Result<Self, OutOfBounds<isize>>)
        requires
            Self::bounds_ordered(),
        ensures
            r == Self::outcome(inner),
            Self::admits(inner) ==> r is Ok && r->Ok_0@ == inner,
            !Self::admits(inner) ==> r is Err,
    {
        let lower: isize = isize_from_bits(LOWER);
        let upper: isize = isize_from_bits(UPPER);
        match check_range(lower, upper, inner) {
            Ok(v) => Ok(Self::new_unchecked(v)),
            Err(e) => Err(e),
        }
    }

    /// Gives the plain integer back.
    pub fn unclamp(self) -> (inner: isize)
        ensures
            inner == self@,
            Self::admits(inner),
    {
        proof {
            use_type_invariant(&self);
        }
        self.0
    }

    /// Writes the text that `Debug` shows.
    pub fn label(&self) -> (s: String)
        ensures
            s@ == self.label_text(),
    {
        write_label_two("ClampedIsize", isize_from_bits(LOWER), isize_from_bits(UPPER), self.0)
    }

    /// The bounded value that holds `inner` shows `inner`.
    pub proof fn lemma_holding_view(inner: isize)
        ensures
            Self::holding(inner)@ == inner,
    {
    }

    /// A value that the range lets in is converted, and comes back unchanged.
    pub proof fn lemma_round_trip(value: isize)
        requires
            Self::admits(value),
        ensures
            Self::outcome(value) is Ok,
            isize::from_spec(Self::outcome(value)->Ok_0) == value,
    {
    }

    /// A value that the range does not let in is refused, and the record holds the bounds
    /// and the value.
    pub proof fn lemma_refusal(value: isize)
        requires
            !Self::admits(value),
        ensures
            Self::outcome(value) == Err::<Self, OutOfBounds<isize>>(
                (OutOfBounds { lower: Self::lower(), upper: Self::upper(), given: value }),
            ),
    {
    }

    /// A bounded value made from `value` equals the plain `value`.
    pub proof fn lemma_equals_plain(value: isize)
        requires
            Self::admits(value),
        ensures
            Self::outcome(value)->Ok_0.eq_spec(&value),
    {
    }

    /// Values of two types of this shape whose bounds differ never share a label, not even
    /// where they hold the same integer.
    pub proof fn lemma_label_tells_bounds<const LOWER_B: usize, const UPPER_B: usize>(
        self,
        other: ClampedIsize<LOWER_B, UPPER_B>,
    )
        requires
            LOWER != LOWER_B || UPPER != UPPER_B,
        ensures
            self.label_text() != other.label_text(),
    {
        if self.label_text() == other.label_text() {
            lemma_label_two_injective(
                "ClampedIsize"@,
                Self::lower() as int,
                Self::upper() as int,
                self@ as int,
                ClampedIsize::<LOWER_B,
                UPPER_B>::lower() as int,
                ClampedIsize::<LOWER_B,
                UPPER_B>::upper() as int,
                other@ as int,
            );
        }
    }

    /// A type whose bounds are not in order admits no value.
    pub proof fn lemma_unordered_admits_nothing(value: isize)
        requires
            !Self::bounds_ordered(),
        ensures
            !Self::admits(value),
    {
    }
}

/// The conversion for every type of this shape, also one whose bounds are not in order:
/// such a type refuses every value.
impl<const LOWER: usize, const UPPER: usize> TryFrom<isize> for ClampedIsize<LOWER, UPPER> {
    type Error = OutOfBounds<isize>;

    fn try_from(inner: isize) -> (r: Result<Self, OutOfBounds<isize>>) {
        let lower: isize = isize_from_bits(LOWER);
        let upper: isize = isize_from_bits(UPPER);
        if lower < upper {
            Self::try_from(inner)
        } else {
            Err(OutOfBounds { lower, upper, given: inner })
        }
    }
}

impl<const LOWER: usize, const UPPER: usize> vstd::std_specs::convert::TryFromSpecImpl<isize>
    for ClampedIsize<LOWER, UPPER>
{
    open spec fn obeys_try_from_spec() -> bool {
        true
    }

    open spec fn try_from_spec(v: isize) -> Result<Self, OutOfBounds<isize>> {
        Self::outcome(v)
    }
}

/// Giving up the bounds: the plain integer that the value holds.
impl<const LOWER: usize, const UPPER: usize> From<ClampedIsize<LOWER, UPPER>> for isize {
    fn from(clamped: ClampedIsize<LOWER, UPPER>) -> (inner: isize) {
        clamped.unclamp()
    }
}

impl<const LOWER: usize, const UPPER: usize>
    vstd::std_specs::convert::FromSpecImpl<ClampedIsize<LOWER, UPPER>> for isize
{
    open spec fn obeys_from_spec() -> bool {
        true
    }

    open spec fn from_spec(v: ClampedIsize<LOWER, UPPER>) -> isize {
        v@
    }
}

impl<const LOWER: usize, const UPPER: usize> PartialEq for ClampedIsize<LOWER, UPPER> {
    fn eq(&self, other: &Self) -> (r: bool) {
        self.0 == other.0
    }
}

impl<const LOWER: usize, const UPPER: usize> vstd::std_specs::cmp::PartialEqSpecImpl
    for ClampedIsize<LOWER, UPPER>
{
    open spec fn obeys_eq_spec() -> bool {
        true
    }

    open spec fn eq_spec(&self, other: &Self) -> bool {
        self@ == other@
    }
}

impl<const LOWER: usize, const UPPER: usize> Eq for ClampedIsize<LOWER, UPPER> {
}

/// A bounded value equals the plain integer that it holds.
impl<const LOWER: usize, const UPPER: usize> PartialEq<isize> for ClampedIsize<LOWER, UPPER> {
    fn eq(&self, other: &isize) -> (r: bool) {
        self.0 == *other
    }
}

impl<const LOWER: usize, const UPPER: usize> vstd::std_specs::cmp::PartialEqSpecImpl<isize>
    for ClampedIsize<LOWER, UPPER>
{
    open spec fn obeys_eq_spec() -> bool {
        true
    }

    open spec fn eq_spec(&self, other: &isize) -> bool {
        self@ == *other
    }
}

/// Shows the label: the bounds are part of it.
impl<const LOWER: usize, const UPPER: usize> core::fmt::Debug for ClampedIsize<LOWER, UPPER> {
    fn fmt(&self, f: &mut core::fmt::Formatter<'_>) -> (r: Result<(), core::fmt::Error>) {
        let text = self.label();
        write_text(f, text.as_str())
    }
}

/// Shows the plain integer.
impl<const LOWER: usize, const UPPER: usize> core::fmt::Display for ClampedIsize<LOWER, UPPER> {
    fn fmt(&self, f: &mut core::fmt::Formatter<'_>) -> (r: Result<(), core::fmt::Error>) {
        let text = self.0.to_decimal();
        write_text(f, text.as_str())
    }
}

/// An integer bound in the range `LOWER..`: from `LOWER` on, with no upper end.
/// Each bound is given by its two's-complement bit pattern, as `-3isize as usize` writes it.
#[derive(Clone, Copy, Hash)]
pub struct ClampedIsizeFrom<const LOWER: usize>(isize);

impl<const LOWER: usize> View for ClampedIsizeFrom<LOWER> {
    type V = isize;

    closed spec fn view(&self) -> isize {
        self.0
    }
}

impl<const LOWER: usize> ClampedIsizeFrom<LOWER> {
    /// The lower bound.
    pub open spec fn lower() -> isize {
        isize_of_bits(LOWER)
    }

    /// Whether the range of this type lets `value` in.
    pub open spec fn admits(value: isize) -> bool {
        in_range_from(Self::lower() as int, value as int)
    }

    /// The bounded value that holds `inner`.
    pub closed spec fn holding(inner: isize) -> Self {
        Self(inner)
    }

    /// What converting `inner` yields: the bounded value, or the record of the refusal.
    pub open spec fn outcome(inner: isize) -> Result<Self, OutOfBoundsFrom<isize>> {
        match range_from_outcome(Self::lower(), inner) {
            Ok(v) => Ok(Self::holding(v)),
            Err(e) => Err(e),
        }
    }

    /// The text that `Debug` shows: the type with its bounds, then the value.
    pub open spec fn label_text(self) -> Seq<char> {
        label_one("ClampedIsizeFrom"@, Self::lower() as int, self@ as int)
    }

    /// Every value of this type lies in the range of the type.
    #[verifier::type_invariant]
    spec fn within_bounds(self) -> bool {
        Self::admits(self.0)
    }

    /// Wraps `inner` without testing it: for a value that has passed the test.
    fn new_unchecked(inner: isize) -> (c: Self)
        requires
            Self::admits(inner),
        ensures
            c == Self::holding(inner),
    {
        Self(inner)
    }

    /// Converts `inner`, if the range lets it in.
    pub fn try_from(inner: isize) -> (r: Result<Self, OutOfBoundsFrom<isize>>)
        ensures
            r == Self::outcome(inner),
            Self::admits(inner) ==> r is Ok && r->Ok_0@ == inner,
            !Self::admits(inner) ==> r is Err,
    {
        let lower: isize = isize_from_bits(LOWER);
        match check_range_from(lower, inner) {
            Ok(v) => Ok(Self::new_unchecked(v)),
            Err(e) => Err(e),
        }
    }

    /// Gives the plain integer back.
    pub fn unclamp(self) -> (inner: isize)
        ensures
            inner == self@,
            Self::admits(inner),
    {
        proof {
            use_type_invariant(&self);
        }
        self.0
    }

    /// Writes the text that `Debug` shows.
    pub fn label(&self) -> (s: String)
        ensures
            s@ == self.label_text(),
    {
        write_label_one("ClampedIsizeFrom", isize_from_bits(LOWER), self.0)
    }

    /// The bounded value that holds `inner` shows `inner`.
    pub proof fn lemma_holding_view(inner: isize)
        ensures
            Self::holding(inner)@ == inner,
    {
    }

    /// A value that the range lets in is converted, and comes back unchanged.
    pub proof fn lemma_round_trip(value: isize)
        requires
            Self::admits(value),
        ensures
            Self::outcome(value) is Ok,
            isize::from_spec(Self::outcome(value)->Ok_0) == value,
    {
    }

    /// A value that the range does not let in is refused, and the record holds the bounds
    /// and the value.
    pub proof fn lemma_refusal(value: isize)
        requires
            !Self::admits(value),
        ensures
            Self::outcome(value) == Err::<Self, OutOfBoundsFrom<isize>>(
                (OutOfBoundsFrom { lower: Self::lower(), given: value }),
            ),
    {
    }

    /// A bounded value made from `value` equals the plain `value`.
    pub proof fn lemma_equals_plain(value: isize)
        requires
            Self::admits(value),
        ensures
            Self::outcome(value)->Ok_0.eq_spec(&value),
    {
    }

    /// Values of two types of this shape whose bounds differ never share a label, not even
    /// where they hold the same integer.
    pub proof fn lemma_label_tells_bounds<const LOWER_B: usize>(
        self,
        other: ClampedIsizeFrom<LOWER_B>,
    )
        requires
            LOWER != LOWER_B,
        ensures
            self.label_text() != other.label_text(),
    {
        if self.label_text() == other.label_text() {
            lemma_label_one_injective(
                "ClampedIsizeFrom"@,
                Self::lower() as int,
                self@ as int,
                ClampedIsizeFrom::<LOWER_B>::lower() as int,
                other@ as int,
            );
        }
    }
}

impl<const LOWER: usize> TryFrom<isize> for ClampedIsizeFrom<LOWER> {
    type Error = OutOfBoundsFrom<isize>;

    fn try_from(inner: isize) -> (r: Result<Self, OutOfBoundsFrom<isize>>) {
        Self::try_from(inner)
    }
}

impl<const LOWER: usize> vstd::std_specs::convert::TryFromSpecImpl<isize>
    for ClampedIsizeFrom<LOWER>
{
    open spec fn obeys_try_from_spec() -> bool {
        true
    }

    open spec fn try_from_spec(v: isize) -> Result<Self, OutOfBoundsFrom<isize>> {
        Self::outcome(v)
    }
}

/// Giving up the bounds: the plain integer that the value holds.
impl<const LOWER: usize> From<ClampedIsizeFrom<LOWER>> for isize {
    fn from(clamped: ClampedIsizeFrom<LOWER>) -> (inner: isize) {
        clamped.unclamp()
    }
}

impl<const LOWER: usize> vstd::std_specs::convert::FromSpecImpl<ClampedIsizeFrom<LOWER>> for isize {
    open spec fn obeys_from_spec() -> bool {
        true
    }

    open spec fn from_spec(v: ClampedIsizeFrom<LOWER>) -> isize {
        v@
    }
}

impl<const LOWER: usize> PartialEq for ClampedIsizeFrom<LOWER> {
    fn eq(&self, other: &Self) -> (r: bool) {
        self.0 == other.0
    }
}

impl<const LOWER: usize> vstd::std_specs::cmp::PartialEqSpecImpl for ClampedIsizeFrom<LOWER> {
    open spec fn obeys_eq_spec() -> bool {
        true
    }

    open spec fn eq_spec(&self, other: &Self) -> bool {
        self@ == other@
    }
}

impl<const LOWER: usize> Eq for ClampedIsizeFrom<LOWER> {
}

/// A bounded value equals the plain integer that it holds.
impl<const LOWER: usize> PartialEq<isize> for ClampedIsizeFrom<LOWER> {
    fn eq(&self, other: &isize) -> (r: bool) {
        self.0 == *other
    }
}

impl<const LOWER: usize> vstd::std_specs::cmp::PartialEqSpecImpl<isize>
    for ClampedIsizeFrom<LOWER>
{
    open spec fn obeys_eq_spec() -> bool {
        true
    }

    open spec fn eq_spec(&self, other: &isize) -> bool {
        self@ == *other
    }
}

/// Shows the label: the bounds are part of it.
impl<const LOWER: usize> core::fmt::Debug for ClampedIsizeFrom<LOWER> {
    fn fmt(&self, f: &mut core::fmt::Formatter<'_>) -> (r: Result<(), core::fmt::Error>) {
        let text = self.label();
        write_text(f, text.as_str())
    }
}

/// Shows the plain integer.
impl<const LOWER: usize> core::fmt::Display for ClampedIsizeFrom<LOWER> {
    fn fmt(&self, f: &mut core::fmt::Formatter<'_>) -> (r: Result<(), core::fmt::Error>) {
        let text = self.0.to_decimal();
        write_text(f, text.as_str())
    }
}

/// An integer bound in the inclusive range `LOWER..=UPPER`: from `LOWER` on, up to `UPPER` itself.
/// Each bound is given by its two's-complement bit pattern, as `-3isize as usize` writes it.
#[derive(Clone, Copy, Hash)]
pub struct ClampedIsizeInclusive<const LOWER: usize, const UPPER: usize>(isize);

impl<const LOWER: usize, const UPPER: usize> View for ClampedIsizeInclusive<LOWER, UPPER> {
    type V = isize;

    closed spec fn view(&self) -> isize {
        self.0
    }
}

impl<const LOWER: usize, const UPPER: usize> ClampedIsizeInclusive<LOWER, UPPER> {
    /// The lower bound.
    pub open spec fn lower() -> isize {
        isize_of_bits(LOWER)
    }

    /// The upper bound.
    pub open spec fn upper() -> isize {
        isize_of_bits(UPPER)
    }

    /// Whether the range of this type lets `value` in.
    pub open spec fn admits(value: isize) -> bool {
        in_range_inclusive(Self::lower() as int, Self::upper() as int, value as int)
    }

    /// Whether the bounds are in order. Where they are not, the type admits nothing.
    pub open spec fn bounds_ordered() -> bool {
        Self::lower() <= Self::upper()
    }

    /// The bounded value that holds `inner`.
    pub closed spec fn holding(inner: isize) -> Self {
        Self(inner)
    }

    /// What converting `inner` yields: the bounded value, or the record of the refusal.
    pub open spec fn outcome(inner: isize) -> Result<Self, OutOfBoundsInclusive<isize>> {
        match range_inclusive_outcome(Self::lower(), Self::upper(), inner) {
            Ok(v) => Ok(Self::holding(v)),
            Err(e) => Err(e),
        }
    }

    /// The text that `Debug` shows: the type with its bounds, then the value.
    pub open spec fn label_text(self) -> Seq<char> {
        label_two(
            "ClampedIsizeInclusive"@,
            Self::lower() as int,
            Self::upper() as int,
            self@ as int,
        )
    }

    /// Every value of this type lies in the range of the type.
    #[verifier::type_invariant]
    spec fn within_bounds(self) -> bool {
        Self::admits(self.0)
    }

    /// Wraps `inner` without testing it: for a value that has passed the test.
    fn new_unchecked(inner: isize) -> (c: Self)
        requires
            Self::admits(inner),
        ensures
            c == Self::holding(inner),
    {
        Self(inner)
    }

    /// Converts `inner`, if the range lets it in.
    /// The bounds must be in order: a type whose bounds are not admits nothing, and naming
    /// one is a mistake that this demand brings to light.
    pub fn try_from(inner: isize) -> (r: Result<Self, OutOfBoundsInclusive<isize>>)
        requires
            Self::bounds_ordered(),
        ensures
            r == Self::outcome(inner),
            Self::admits(inner) ==> r is Ok && r->Ok_0@ == inner,
            !Self::admits(inner) ==> r is Err,
    {
        let lower: isize = isize_from_bits(LOWER);
        let upper: isize = isize_from_bits(UPPER);
        match check_range_inclusive(lower, upper, inner) {
            Ok(v) => Ok(Self::new_unchecked(v)),
            Err(e) => Err(e),
        }
    }

    /// Gives the plain integer back.
    pub fn unclamp(self) -> (inner: isize)
        ensures
            inner == self@,
            Self::admits(inner),
    {
        proof {
            use_type_invariant(&self);
        }
        self.0
    }

    /// Writes the text that `Debug` shows.
    pub fn label(&self) -> (s: String)
        ensures
            s@ == self.label_text(),
    {
        write_label_two(
            "ClampedIsizeInclusive",
            isize_from_bits(LOWER),
            isize_from_bits(UPPER),
            self.0,
        )
    }

    /// The bounded value that holds `inner` shows `inner`.
    pub proof fn lemma_holding_view(inner: isize)
        ensures
            Self::holding(inner)@ == inner,
    {
    }

    /// A value that the range lets in is converted, and comes back unchanged.
    pub proof fn lemma_round_trip(value: isize)
        requires
            Self::admits(value),
        ensures
            Self::outcome(value) is Ok,
            isize::from_spec(Self::outcome(value)->Ok_0) == value,
    {
    }

    /// A value that the range does not let in is refused, and the record holds the bounds
    /// and the value.
    pub proof fn lemma_refusal(value: isize)
        requires
            !Self::admits(value),
        ensures
            Self::outcome(value) == Err::<Self, OutOfBoundsInclusive<isize>>(
                (OutOfBoundsInclusive { lower: Self::lower(), upper: Self::upper(), given: value }),
            ),
    {
    }

    /// A bounded value made from `value` equals the plain `value`.
    pub proof fn lemma_equals_plain(value: isize)
        requires
            Self::admits(value),
        ensures
            Self::outcome(value)->Ok_0.eq_spec(&value),
    {
    }

    /// Values of two types of this shape whose bounds differ never share a label, not even
    /// where they hold the same integer.
    pub proof fn lemma_label_tells_bounds<const LOWER_B: usize, const UPPER_B: usize>(
        self,
        other: ClampedIsizeInclusive<LOWER_B, UPPER_B>,
    )
        requires
            LOWER != LOWER_B || UPPER != UPPER_B,
        ensures
            self.label_text() != other.label_text(),
    {
        if self.label_text() == other.label_text() {
            lemma_label_two_injective(
                "ClampedIsizeInclusive"@,
                Self::lower() as int,
                Self::upper() as int,
                self@ as int,
                ClampedIsizeInclusive::<LOWER_B,
                UPPER_B>::lower() as int,
                ClampedIsizeInclusive::<LOWER_B,
                UPPER_B>::upper() as int,
                other@ as int,
            );
        }
    }

    /// A type whose bounds are not in order admits no value.
    pub proof fn lemma_unordered_admits_nothing(value: isize)
        requires
            !Self::bounds_ordered(),
        ensures
            !Self::admits(value),
    {
    }
}

/// The conversion for every type of this shape, also one whose bounds are not in order:
/// such a type refuses every value.
impl<const LOWER: usize, const UPPER: usize> TryFrom<isize>
    for ClampedIsizeInclusive<LOWER, UPPER>
{
    type Error = OutOfBoundsInclusive<isize>;

    fn try_from(inner: isize) -> (r: Result<Self, OutOfBoundsInclusive<isize>>) {
        let lower: isize = isize_from_bits(LOWER);
        let upper: isize = isize_from_bits(UPPER);
        if lower <= upper {
            Self::try_from(inner)
        } else {
            Err(OutOfBoundsInclusive { lower, upper, given: inner })
        }
    }
}

impl<const LOWER: usize, const UPPER: usize> vstd::std_specs::convert::TryFromSpecImpl<isize>
    for ClampedIsizeInclusive<LOWER, UPPER>
{
    open spec fn obeys_try_from_spec() -> bool {
        true
    }

    open spec fn try_from_spec(v: isize) -> Result<Self, OutOfBoundsInclusive<isize>> {
        Self::outcome(v)
    }
}

/// Giving up the bounds: the plain integer that the value holds.
impl<const LOWER: usize, const UPPER: usize> From<ClampedIsizeInclusive<LOWER, UPPER>> for isize {
    fn from(clamped: ClampedIsizeInclusive<LOWER, UPPER>) -> (inner: isize) {
        clamped.unclamp()
    }
}

impl<const LOWER: usize, const UPPER: usize>
    vstd::std_specs::convert::FromSpecImpl<ClampedIsizeInclusive<LOWER, UPPER>> for isize
{
    open spec fn obeys_from_spec() -> bool {
        true
    }

    open spec fn from_spec(v: ClampedIsizeInclusive<LOWER, UPPER>) -> isize {
        v@
    }
}

impl<const LOWER: usize, const UPPER: usize> PartialEq for ClampedIsizeInclusive<LOWER, UPPER> {
    fn eq(&self, other: &Self) -> (r: bool) {
        self.0 == other.0
    }
}

impl<const LOWER: usize, const UPPER: usize> vstd::std_specs::cmp::PartialEqSpecImpl
    for ClampedIsizeInclusive<LOWER, UPPER>
{
    open spec fn obeys_eq_spec() -> bool {
        true
    }

    open spec fn eq_spec(&self, other: &Self) -> bool {
        self@ == other@
    }
}

impl<const LOWER: usize, const UPPER: usize> Eq for ClampedIsizeInclusive<LOWER, UPPER> {
}

/// A bounded value equals the plain integer that it holds.
impl<const LOWER: usize, const UPPER: usize> PartialEq<isize>
    for ClampedIsizeInclusive<LOWER, UPPER>
{
    fn eq(&self, other: &isize) -> (r: bool) {
        self.0 == *other
    }
}

impl<const LOWER: usize, const UPPER: usize> vstd::std_specs::cmp::PartialEqSpecImpl<isize>
    for ClampedIsizeInclusive<LOWER, UPPER>
{
    open spec fn obeys_eq_spec() -> bool {
        true
    }

    open spec fn eq_spec(&self, other: &isize) -> bool {
        self@ == *other
    }
}

/// Shows the label: the bounds are part of it.
impl<const LOWER: usize, const UPPER: usize> core::fmt::Debug
    for ClampedIsizeInclusive<LOWER, UPPER>
{
    fn fmt(&self, f: &mut core::fmt::Formatter<'_>) -> (r: Result<(), core::fmt::Error>) {
        let text = self.label();
        write_text(f, text.as_str())
    }
}

/// Shows the plain integer.
impl<const LOWER: usize, const UPPER: usize> core::fmt::Display
    for ClampedIsizeInclusive<LOWER, UPPER>
{
    fn fmt(&self, f: &mut core::fmt::Formatter<'_>) -> (r: Result<(), core::fmt::Error>) {
        let text = self.0.to_decimal();
        write_text(f, text.as_str())
    }
}

/// An integer bound in the range `..UPPER`: every value below `UPPER`.
/// Each bound is given by its two's-complement bit pattern, as `-3isize as usize` writes it.
#[derive(Clone, Copy, Hash)]
pub struct ClampedIsizeTo<const UPPER: usize>(isize);

impl<const UPPER: usize> View for ClampedIsizeTo<UPPER> {
    type V = isize;

    closed spec fn view(&self) -> isize {
        self.0
    }
}

impl<const UPPER: usize> ClampedIsizeTo<UPPER> {
    /// The upper bound.
    pub open spec fn upper() -> isize {
        isize_of_bits(UPPER)
    }

    /// Whether the range of this type lets `value` in.
    pub open spec fn admits(value: isize) -> bool {
        in_range_to(Self::upper() as int, value as int)
    }

    /// The bounded value that holds `inner`.
    pub closed spec fn holding(inner: isize) -> Self {
        Self(inner)
    }

    /// What converting `inner` yields: the bounded value, or the record of the refusal.
    pub open spec fn outcome(inner: isize) -> Result<Self, OutOfBoundsTo<isize>> {
        match range_to_outcome(Self::upper(), inner) {
            Ok(v) => Ok(Self::holding(v)),
            Err(e) => Err(e),
        }
    }

    /// The text that `Debug` shows: the type with its bounds, then the value.
    pub open spec fn label_text(self) -> Seq<char> {
        label_one("ClampedIsizeTo"@, Self::upper() as int, self@ as int)
    }

    /// Every value of this type lies in the range of the type.
    #[verifier::type_invariant]
    spec fn within_bounds(self) -> bool {
        Self::admits(self.0)
    }

    /// Wraps `inner` without testing it: for a value that has passed the test.
    fn new_unchecked(inner: isize) -> (c: Self)
        requires
            Self::admits(inner),
        ensures
            c == Self::holding(inner),
    {
        Self(inner)
    }

    /// Converts `inner`, if the range lets it in.
    pub fn try_from(inner: isize) -> (r: Result<Self, OutOfBoundsTo<isize>>)
        ensures
            r == Self::outcome(inner),
            Self::admits(inner) ==> r is Ok && r->Ok_0@ == inner,
            !Self::admits(inner) ==> r is Err,
    {
        let upper: isize = isize_from_bits(UPPER);
        match check_range_to(upper, inner) {
            Ok(v) => Ok(Self::new_unchecked(v)),
            Err(e) => Err(e),
        }
    }

    /// Gives the plain integer back.
    pub fn unclamp(self) -> (inner: isize)
        ensures
            inner == self@,
            Self::admits(inner),
    {
        proof {
            use_type_invariant(&self);
        }
        self.0
    }

    /// Writes the text that `Debug` shows.
    pub fn label(&self) -> (s: String)
        ensures
            s@ == self.label_text(),
    {
        write_label_one("ClampedIsizeTo", isize_from_bits(UPPER), self.0)
    }

    /// The bounded value that holds `inner` shows `inner`.
    pub proof fn lemma_holding_view(inner: isize)
        ensures
            Self::holding(inner)@ == inner,
    {
    }

    /// A value that the range lets in is converted, and comes back unchanged.
    pub proof fn lemma_round_trip(value: isize)
        requires
            Self::admits(value),
        ensures
            Self::outcome(value) is Ok,
            isize::from_spec(Self::outcome(value)->Ok_0) == value,
    {
    }

    /// A value that the range does not let in is refused, and the record holds the bounds
    /// and the value.
    pub proof fn lemma_refusal(value: isize)
        requires
            !Self::admits(value),
        ensures
            Self::outcome(value) == Err::<Self, OutOfBoundsTo<isize>>(
                (OutOfBoundsTo { upper: Self::upper(), given: value }),
            ),
    {
    }

    /// A bounded value made from `value` equals the plain `value`.
    pub proof fn lemma_equals_plain(value: isize)
        requires
            Self::admits(value),
        ensures
            Self::outcome(value)->Ok_0.eq_spec(&value),
    {
    }

    /// Values of two types of this shape whose bounds differ never share a label, not even
    /// where they hold the same integer.
    pub proof fn lemma_label_tells_bounds<const UPPER_B: usize>(
        self,
        other: ClampedIsizeTo<UPPER_B>,
    )
        requires
            UPPER != UPPER_B,
        ensures
            self.label_text() != other.label_text(),
    {
        if self.label_text() == other.label_text() {
            lemma_label_one_injective(
                "ClampedIsizeTo"@,
                Self::upper() as int,
                self@ as int,
                ClampedIsizeTo::<UPPER_B>::upper() as int,
                other@ as int,
            );
        }
    }
}

impl<const UPPER: usize> TryFrom<isize> for ClampedIsizeTo<UPPER> {
    type Error = OutOfBoundsTo<isize>;

    fn try_from(inner: isize) -> (r: Result<Self, OutOfBoundsTo<isize>>) {
        Self::try_from(inner)
    }
}

impl<const UPPER: usize> vstd::std_specs::convert::TryFromSpecImpl<isize>
    for ClampedIsizeTo<UPPER>
{
    open spec fn obeys_try_from_spec() -> bool {
        true
    }

    open spec fn try_from_spec(v: isize) -> Result<Self, OutOfBoundsTo<isize>> {
        Self::outcome(v)
    }
}

/// Giving up the bounds: the plain integer that the value holds.
impl<const UPPER: usize> From<ClampedIsizeTo<UPPER>> for isize {
    fn from(clamped: ClampedIsizeTo<UPPER>) -> (inner: isize) {
        clamped.unclamp()
    }
}

impl<const UPPER: usize> vstd::std_specs::convert::FromSpecImpl<ClampedIsizeTo<UPPER>> for isize {
    open spec fn obeys_from_spec() -> bool {
        true
    }

    open spec fn from_spec(v: ClampedIsizeTo<UPPER>) -> isize {
        v@
    }
}

impl<const UPPER: usize> PartialEq for ClampedIsizeTo<UPPER> {
    fn eq(&self, other: &Self) -> (r: bool) {
        self.0 == other.0
    }
}

impl<const UPPER: usize> vstd::std_specs::cmp::PartialEqSpecImpl for ClampedIsizeTo<UPPER> {
    open spec fn obeys_eq_spec() -> bool {
        true
    }

    open spec fn eq_spec(&self, other: &Self) -> bool {
        self@ == other@
    }
}

impl<const UPPER: usize> Eq for ClampedIsizeTo<UPPER> {
}

/// A bounded value equals the plain integer that it holds.
impl<const UPPER: usize> PartialEq<isize> for ClampedIsizeTo<UPPER> {
    fn eq(&self, other: &isize) -> (r: bool) {
        self.0 == *other
    }
}

impl<const UPPER: usize> vstd::std_specs::cmp::PartialEqSpecImpl<isize> for ClampedIsizeTo<UPPER> {
    open spec fn obeys_eq_spec() -> bool {
        true
    }

    open spec fn eq_spec(&self, other: &isize) -> bool {
        self@ == *other
    }
}

/// Shows the label: the bounds are part of it.
impl<const UPPER: usize> core::fmt::Debug for ClampedIsizeTo<UPPER> {
    fn fmt(&self, f: &mut core::fmt::Formatter<'_>) -> (r: Result<(), core::fmt::Error>) {
        let text = self.label();
        write_text(f, text.as_str())
    }
}

/// Shows the plain integer.
impl<const UPPER: usize> core::fmt::Display for ClampedIsizeTo<UPPER> {
    fn fmt(&self, f: &mut core::fmt::Formatter<'_>) -> (r: Result<(), core::fmt::Error>) {
        let text = self.0.to_decimal();
        write_text(f, text.as_str())
    }
}

/// An integer bound in the range `..=UPPER`: every value up to `UPPER` itself.
/// Each bound is given by its two's-complement bit pattern, as `-3isize as usize` writes it.
#[derive(Clone, Copy, Hash)]
pub struct ClampedIsizeToInclusive<const UPPER: usize>(isize);

impl<const UPPER: usize> View for ClampedIsizeToInclusive<UPPER> {
    type V = isize;

    closed spec fn view(&self) -> isize {
        self.0
    }
}

impl<const UPPER: usize> ClampedIsizeToInclusive<UPPER> {
    /// The upper bound.
    pub open spec fn upper() -> isize {
        isize_of_bits(UPPER)
    }

    /// Whether the range of this type lets `value` in.
    pub open spec fn admits(value: isize) -> bool {
        in_range_to_inclusive(Self::upper() as int, value as int)
    }

    /// The bounded value that holds `inner`.
    pub closed spec fn holding(inner: isize) -> Self {
        Self(inner)
    }

    /// What converting `inner` yields: the bounded value, or the record of the refusal.
    pub open spec fn outcome(inner: isize) -> Result<Self, OutOfBoundsToInclusive<isize>> {
        match range_to_inclusive_outcome(Self::upper(), inner) {
            Ok(v) => Ok(Self::holding(v)),
            Err(e) => Err(e),
        }
    }

    /// The text that `Debug` shows: the type with its bounds, then the value.
    pub open spec fn label_text(self) -> Seq<char> {
        label_one("ClampedIsizeToInclusive"@, Self::upper() as int, self@ as int)
    }

    /// Every value of this type lies in the range of the type.
    #[verifier::type_invariant]
    spec fn within_bounds(self) -> bool {
        Self::admits(self.0)
    }

    /// Wraps `inner` without testing it: for a value that has passed the test.
    fn new_unchecked(inner: isize) -> (c: Self)
        requires
            Self::admits(inner),
        ensures
            c == Self::holding(inner),
    {
        Self(inner)
    }

    /// Converts `inner`, if the range lets it in.
    pub fn try_from(inner: isize) -> (r: Result<Self, OutOfBoundsToInclusive<isize>>)
        ensures
            r == Self::outcome(inner),
            Self::admits(inner) ==> r is Ok && r->Ok_0@ == inner,
            !Self::admits(inner) ==> r is Err,
    {
        let upper: isize = isize_from_bits(UPPER);
        match check_range_to_inclusive(upper, inner) {
            Ok(v) => Ok(Self::new_unchecked(v)),
            Err(e) => Err(e),
        }
    }

    /// Gives the plain integer back.
    pub fn unclamp(self) -> (inner: isize)
        ensures
            inner == self@,
            Self::admits(inner),
    {
        proof {
            use_type_invariant(&self);
        }
        self.0
    }

    /// Writes the text that `Debug` shows.
    pub fn label(&self) -> (s: String)
        ensures
            s@ == self.label_text(),
    {
        write_label_one("ClampedIsizeToInclusive", isize_from_bits(UPPER), self.0)
    }

    /// The bounded value that holds `inner` shows `inner`.
    pub proof fn lemma_holding_view(inner: isize)
        ensures
            Self::holding(inner)@ == inner,
    {
    }

    /// A value that the range lets in is converted, and comes back unchanged.
    pub proof fn lemma_round_trip(value: isize)
        requires
            Self::admits(value),
        ensures
            Self::outcome(value) is Ok,
            isize::from_spec(Self::outcome(value)->Ok_0) == value,
    {
    }

    /// A value that the range does not let in is refused, and the record holds the bounds
    /// and the value.
    pub proof fn lemma_refusal(value: isize)
        requires
            !Self::admits(value),
        ensures
            Self::outcome(value) == Err::<Self, OutOfBoundsToInclusive<isize>>(
                (OutOfBoundsToInclusive { upper: Self::upper(), given: value }),
            ),
    {
    }

    /// A bounded value made from `value` equals the plain `value`.
    pub proof fn lemma_equals_plain(value: isize)
        requires
            Self::admits(value),
        ensures
            Self::outcome(value)->Ok_0.eq_spec(&value),
    {
    }

    /// Values of two types of this shape whose bounds differ never share a label, not even
    /// where they hold the same integer.
    pub proof fn lemma_label_tells_bounds<const UPPER_B: usize>(
        self,
        other: ClampedIsizeToInclusive<UPPER_B>,
    )
        requires
            UPPER != UPPER_B,
        ensures
            self.label_text() != other.label_text(),
    {
        if self.label_text() == other.label_text() {
            lemma_label_one_injective(
                "ClampedIsizeToInclusive"@,
                Self::upper() as int,
                self@ as int,
                ClampedIsizeToInclusive::<UPPER_B>::upper() as int,
                other@ as int,
            );
        }
    }
}

impl<const UPPER: usize> TryFrom<isize> for ClampedIsizeToInclusive<UPPER> {
    type Error = OutOfBoundsToInclusive<isize>;

    fn try_from(inner: isize) -> (r: Result<Self, OutOfBoundsToInclusive<isize>>) {
        Self::try_from(inner)
    }
}

impl<const UPPER: usize> vstd::std_specs::convert::TryFromSpecImpl<isize>
    for ClampedIsizeToInclusive<UPPER>
{
    open spec fn obeys_try_from_spec() -> bool {
        true
    }

    open spec fn try_from_spec(v: isize) -> Result<Self, OutOfBoundsToInclusive<isize>> {
        Self::outcome(v)
    }
}

/// Giving up the bounds: the plain integer that the value holds.
impl<const UPPER: usize> From<ClampedIsizeToInclusive<UPPER>> for isize {
    fn from(clamped: ClampedIsizeToInclusive<UPPER>) -> (inner: isize) {
        clamped.unclamp()
    }
}

impl<const UPPER: usize> vstd::std_specs::convert::FromSpecImpl<ClampedIsizeToInclusive<UPPER>>
    for isize
{
    open spec fn obeys_from_spec() -> bool {
        true
    }

    open spec fn from_spec(v: ClampedIsizeToInclusive<UPPER>) -> isize {
        v@
    }
}

impl<const UPPER: usize> PartialEq for ClampedIsizeToInclusive<UPPER> {
    fn eq(&self, other: &Self) -> (r: bool) {
        self.0 == other.0
    }
}

impl<const UPPER: usize> vstd::std_specs::cmp::PartialEqSpecImpl
    for ClampedIsizeToInclusive<UPPER>
{
    open spec fn obeys_eq_spec() -> bool {
        true
    }

    open spec fn eq_spec(&self, other: &Self) -> bool {
        self@ == other@
    }
}

impl<const UPPER: usize> Eq for ClampedIsizeToInclusive<UPPER> {
}

/// A bounded value equals the plain integer that it holds.
impl<const UPPER: usize> PartialEq<isize> for ClampedIsizeToInclusive<UPPER> {
    fn eq(&self, other: &isize) -> (r: bool) {
        self.0 == *other
    }
}

impl<const UPPER: usize> vstd::std_specs::cmp::PartialEqSpecImpl<isize>
    for ClampedIsizeToInclusive<UPPER>
{
    open spec fn obeys_eq_spec() -> bool {
        true
    }

    open spec fn eq_spec(&self, other: &isize) -> bool {
        self@ == *other
    }
}

/// Shows the label: the bounds are part of it.
impl<const UPPER: usize> core::fmt::Debug for ClampedIsizeToInclusive<UPPER> {
    fn fmt(&self, f: &mut core::fmt::Formatter<'_>) -> (r: Result<(), core::fmt::Error>) {
        let text = self.label();
        write_text(f, text.as_str())
    }
}

/// Shows the plain integer.
impl<const UPPER: usize> core::fmt::Display for ClampedIsizeToInclusive<UPPER> {
    fn fmt(&self, f: &mut core::fmt::Formatter<'_>) -> (r: Result<(), core::fmt::Error>) {
        let text = self.0.to_decimal();
        write_text(f, text.as_str())
    }
}

} // verus!
