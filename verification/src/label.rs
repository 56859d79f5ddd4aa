//! The label that `Debug` shows for a bounded value: the type's name with its bounds, then
//! the value. The bounds are part of the label, so that two types over one primitive never
//! share a label.
use vstd::prelude::*;
use vstd::string::*;
use crate::decimal::{decimal, is_decimal_char, lemma_decimal_chars, lemma_decimal_injective};
use crate::primitive::Primitive;

verus! {

/// The label of a value of a type with two bounds, as in `ClampedU8<10, 20>(15)`.
pub open spec fn label_two(name: Seq<char>, lower: int, upper: int, value: int) -> Seq<char> {
    name + "<"@ + decimal(lower) + ", "@ + decimal(upper) + ">("@ + decimal(value) + ")"@
}

/// The label of a value of a type with one bound, as in `ClampedU8From<10>(15)`.
pub open spec fn label_one(name: Seq<char>, bound: int, value: int) -> Seq<char> {
    name + "<"@ + decimal(bound) + ">("@ + decimal(value) + ")"@
}

/// Two texts that each start with decimal text, go on with one separator and end with some
/// rest are equal only where the decimal texts are, and the rests.
proof fn lemma_split_at_separator(
    a: Seq<char>,
    b: Seq<char>,
    separator: char,
    rest_a: Seq<char>,
    rest_b: Seq<char>,
)
    requires
        forall|i: int| 0 <= i < a.len() ==> is_decimal_char(#[trigger] a[i]),
        forall|i: int| 0 <= i < b.len() ==> is_decimal_char(#[trigger] b[i]),
        !is_decimal_char(separator),
        a + seq![separator] + rest_a == b + seq![separator] + rest_b,
    ensures
        a == b,
        rest_a == rest_b,
{
    let whole_a = a + seq![separator] + rest_a;
    let whole_b = b + seq![separator] + rest_b;
    if a.len() < b.len() {
        assert(whole_a[a.len() as int] == separator);
        assert(whole_b[a.len() as int] == b[a.len() as int]);
    } else if b.len() < a.len() {
        assert(whole_b[b.len() as int] == separator);
        assert(whole_a[b.len() as int] == a[b.len() as int]);
    }
    assert forall|i: int| 0 <= i < a.len() implies a[i] == b[i] by {
        assert(whole_a[i] == a[i]);
        assert(whole_b[i] == b[i]);
    }
    assert(a =~= b);
    assert(rest_a =~= whole_a.subrange(a.len() as int + 1, whole_a.len() as int));
    assert(rest_b =~= whole_b.subrange(b.len() as int + 1, whole_b.len() as int));
}

/// What follows the last bound's closing angle: the value in round brackets. The empty
/// sequence at the end lets the closing bracket serve as a separator like the others.
spec fn closing(value: int) -> Seq<char> {
    seq!['('] + (decimal(value) + seq![')'] + Seq::<char>::empty())
}

/// What follows the comma behind the lower bound.
spec fn after_lower(upper: int, value: int) -> Seq<char> {
    seq![' '] + (decimal(upper) + seq!['>'] + closing(value))
}

/// What follows the opening angle in a label with two bounds.
spec fn after_name_two(lower: int, upper: int, value: int) -> Seq<char> {
    decimal(lower) + seq![','] + after_lower(upper, value)
}

/// What follows the opening angle in a label with one bound.
spec fn after_name_one(bound: int, value: int) -> Seq<char> {
    decimal(bound) + seq!['>'] + closing(value)
}

proof fn lemma_closing(value: int)
    ensures
        closing(value) == seq!['('] + decimal(value) + ")"@,
        ">("@ == seq!['>'] + seq!['('],
{
    reveal_strlit(">(");
    reveal_strlit(")");
    assert(closing(value) =~= seq!['('] + decimal(value) + ")"@);
    assert(">("@ =~= seq!['>'] + seq!['(']);
}

proof fn lemma_label_two_parts(name: Seq<char>, lower: int, upper: int, value: int)
    ensures
        label_two(name, lower, upper, value) == (name + "<"@) + after_name_two(lower, upper, value),
{
    reveal_strlit(", ");
    lemma_closing(value);
    let comma = seq![','];
    let blank = seq![' '];
    let angle = seq!['>'];
    let bracket = seq!['('];
    assert(", "@ =~= comma + blank);
    let left = name + "<"@ + decimal(lower);
    let bounds = left + comma + (blank + decimal(upper));
    assert(left + (comma + blank) + decimal(upper) =~= bounds);
    assert(bounds + (angle + bracket) + decimal(value) + ")"@ =~= bounds + angle + (bracket
        + decimal(value) + ")"@));
    assert(bounds + angle + closing(value) =~= left + comma + after_lower(upper, value));
    assert(left + comma + after_lower(upper, value) =~= (name + "<"@) + after_name_two(
        lower,
        upper,
        value,
    ));
}

proof fn lemma_label_one_parts(name: Seq<char>, bound: int, value: int)
    ensures
        label_one(name, bound, value) == (name + "<"@) + after_name_one(bound, value),
{
    lemma_closing(value);
    let angle = seq!['>'];
    let bracket = seq!['('];
    let left = name + "<"@ + decimal(bound);
    assert(left + (angle + bracket) + decimal(value) + ")"@ =~= left + angle + (bracket
        + decimal(value) + ")"@));
    assert(left + angle + closing(value) =~= (name + "<"@) + after_name_one(bound, value));
}

proof fn lemma_same_head(head: Seq<char>, a: Seq<char>, b: Seq<char>)
    requires
        head + a == head + b,
    ensures
        a == b,
{
    assert(a =~= (head + a).subrange(head.len() as int, (head + a).len() as int));
    assert(b =~= (head + b).subrange(head.len() as int, (head + b).len() as int));
}

proof fn lemma_closing_injective(value_a: int, value_b: int)
    requires
        closing(value_a) == closing(value_b),
    ensures
        value_a == value_b,
{
    lemma_decimal_chars(value_a);
    lemma_decimal_chars(value_b);
    let nothing = Seq::<char>::empty();
    lemma_same_head(
        seq!['('],
        decimal(value_a) + seq![')'] + nothing,
        decimal(value_b) + seq![')'] + nothing,
    );
    lemma_split_at_separator(decimal(value_a), decimal(value_b), ')', nothing, nothing);
    lemma_decimal_injective(value_a, value_b);
}

proof fn lemma_after_lower_injective(upper_a: int, value_a: int, upper_b: int, value_b: int)
    requires
        after_lower(upper_a, value_a) == after_lower(upper_b, value_b),
    ensures
        upper_a == upper_b,
        value_a == value_b,
{
    lemma_decimal_chars(upper_a);
    lemma_decimal_chars(upper_b);
    lemma_same_head(
        seq![' '],
        decimal(upper_a) + seq!['>'] + closing(value_a),
        decimal(upper_b) + seq!['>'] + closing(value_b),
    );
    lemma_split_at_separator(
        decimal(upper_a),
        decimal(upper_b),
        '>',
        closing(value_a),
        closing(value_b),
    );
    lemma_decimal_injective(upper_a, upper_b);
    lemma_closing_injective(value_a, value_b);
}

/// Labels of one name are equal only where both bounds and the value are: a label tells
/// the bounds of its type apart from any other bounds, whatever value it holds.
pub proof fn lemma_label_two_injective(
    name: Seq<char>,
    lower_a: int,
    upper_a: int,
    value_a: int,
    lower_b: int,
    upper_b: int,
    value_b: int,
)
    requires
        label_two(name, lower_a, upper_a, value_a) == label_two(name, lower_b, upper_b, value_b),
    ensures
        lower_a == lower_b,
        upper_a == upper_b,
        value_a == value_b,
{
    lemma_decimal_chars(lower_a);
    lemma_decimal_chars(lower_b);
    lemma_label_two_parts(name, lower_a, upper_a, value_a);
    lemma_label_two_parts(name, lower_b, upper_b, value_b);
    lemma_same_head(
        name + "<"@,
        after_name_two(lower_a, upper_a, value_a),
        after_name_two(lower_b, upper_b, value_b),
    );
    lemma_split_at_separator(
        decimal(lower_a),
        decimal(lower_b),
        ',',
        after_lower(upper_a, value_a),
        after_lower(upper_b, value_b),
    );
    lemma_decimal_injective(lower_a, lower_b);
    lemma_after_lower_injective(upper_a, value_a, upper_b, value_b);
}

/// Labels of one name are equal only where the bound and the value are.
pub proof fn lemma_label_one_injective(
    name: Seq<char>,
    bound_a: int,
    value_a: int,
    bound_b: int,
    value_b: int,
)
    requires
        label_one(name, bound_a, value_a) == label_one(name, bound_b, value_b),
    ensures
        bound_a == bound_b,
        value_a == value_b,
{
    lemma_decimal_chars(bound_a);
    lemma_decimal_chars(bound_b);
    lemma_label_one_parts(name, bound_a, value_a);
    lemma_label_one_parts(name, bound_b, value_b);
    lemma_same_head(
        name + "<"@,
        after_name_one(bound_a, value_a),
        after_name_one(bound_b, value_b),
    );
    lemma_split_at_separator(
        decimal(bound_a),
        decimal(bound_b),
        '>',
        closing(value_a),
        closing(value_b),
    );
    lemma_decimal_injective(bound_a, bound_b);
    lemma_closing_injective(value_a, value_b);
}

/// Writes the label of a value of a type with two bounds.
pub fn write_label_two<T: Primitive>(name: &str, lower: T, upper: T, value: T) -> (s: String)
    ensures
        s@ == label_two(name@, lower.value(), upper.value(), value.value()),
{
    let s = String::from_str(name);
    let s = s.concat("<");
    let s = s.concat(lower.to_decimal().as_str());
    let s = s.concat(", ");
    let s = s.concat(upper.to_decimal().as_str());
    let s = s.concat(">(");
    let s = s.concat(value.to_decimal().as_str());
    s.concat(")")
}

/// Writes the label of a value of a type with one bound.
pub fn write_label_one<T: Primitive>(name: &str, bound: T, value: T) -> (s: String)
    ensures
        s@ == label_one(name@, bound.value(), value.value()),
{
    let s = String::from_str(name);
    let s = s.concat("<");
    let s = s.concat(bound.to_decimal().as_str());
    let s = s.concat(">(");
    let s = s.concat(value.to_decimal().as_str());
    s.concat(")")
}

} // verus!
