//! Decimal text of integers, as the messages and labels of this crate show them.
use vstd::prelude::*;
use vstd::string::*;

verus! {

/// The character that stands for one decimal digit.
pub open spec fn digit(d: int) -> char {
    if d == 0 {
        '0'
    } else if d == 1 {
        '1'
    } else if d == 2 {
        '2'
    } else if d == 3 {
        '3'
    } else if d == 4 {
        '4'
    } else if d == 5 {
        '5'
    } else if d == 6 {
        '6'
    } else if d == 7 {
        '7'
    } else if d == 8 {
        '8'
    } else {
        '9'
    }
}

/// The decimal digits of a natural number, most significant first, without leading zeros.
pub open spec fn decimal_nat(n: nat) -> Seq<char>
    decreases n,
{
    if n < 10 {
        seq![digit(n as int)]
    } else {
        decimal_nat(n / 10) + seq![digit((n % 10) as int)]
    }
}

/// The decimal text of an integer: a minus sign before the digits of a negative one.
pub open spec fn decimal(n: int) -> Seq<char> {
    if n < 0 {
        seq!['-'] + decimal_nat((-n) as nat)
    } else {
        decimal_nat(n as nat)
    }
}

/// Whether `c` is one of the ten digits.
pub open spec fn is_digit_char(c: char) -> bool {
    c == '0' || c == '1' || c == '2' || c == '3' || c == '4' || c == '5' || c == '6' || c == '7'
        || c == '8' || c == '9'
}

/// Whether `c` can stand in the decimal text of an integer: a digit, or the minus sign.
pub open spec fn is_decimal_char(c: char) -> bool {
    c == '-' || is_digit_char(c)
}

/// The decimal text of a natural number is not empty and holds digits only.
pub proof fn lemma_decimal_nat_digits(n: nat)
    ensures
        decimal_nat(n).len() >= 1,
        forall|i: int|
            0 <= i < decimal_nat(n).len() ==> is_digit_char(#[trigger] decimal_nat(n)[i]),
    decreases n,
{
    if n >= 10 {
        lemma_decimal_nat_digits(n / 10);
    }
}

/// Two natural numbers with the same decimal text are the same number.
pub proof fn lemma_decimal_nat_injective(a: nat, b: nat)
    requires
        decimal_nat(a) == decimal_nat(b),
    ensures
        a == b,
    decreases a,
{
    lemma_decimal_nat_digits(a / 10);
    lemma_decimal_nat_digits(b / 10);
    if a < 10 && b < 10 {
        assert(decimal_nat(a)[0] == digit(a as int));
        assert(decimal_nat(b)[0] == digit(b as int));
    } else if a < 10 {
        assert(decimal_nat(a).len() == 1);
        assert(decimal_nat(b).len() >= 2);
    } else if b < 10 {
        assert(decimal_nat(b).len() == 1);
        assert(decimal_nat(a).len() >= 2);
    } else {
        let head_a = decimal_nat(a / 10);
        let head_b = decimal_nat(b / 10);
        let text_a = head_a + seq![digit((a % 10) as int)];
        let text_b = head_b + seq![digit((b % 10) as int)];
        assert(text_a == text_b);
        assert(head_a =~= text_a.drop_last());
        assert(head_b =~= text_b.drop_last());
        assert(text_a.last() == digit((a % 10) as int));
        assert(text_b.last() == digit((b % 10) as int));
        lemma_decimal_nat_injective(a / 10, b / 10);
    }
}

/// The decimal text of an integer is not empty and holds digits and the minus sign only.
pub proof fn lemma_decimal_chars(n: int)
    ensures
        decimal(n).len() >= 1,
        forall|i: int| 0 <= i < decimal(n).len() ==> is_decimal_char(#[trigger] decimal(n)[i]),
{
    if n < 0 {
        lemma_decimal_nat_digits((-n) as nat);
    } else {
        lemma_decimal_nat_digits(n as nat);
    }
}

/// Two integers with the same decimal text are the same integer.
pub proof fn lemma_decimal_injective(a: int, b: int)
    requires
        decimal(a) == decimal(b),
    ensures
        a == b,
{
    if a < 0 && b < 0 {
        let digits_a = decimal_nat((-a) as nat);
        let digits_b = decimal_nat((-b) as nat);
        assert(digits_a =~= decimal(a).subrange(1, decimal(a).len() as int));
        assert(digits_b =~= decimal(b).subrange(1, decimal(b).len() as int));
        lemma_decimal_nat_injective((-a) as nat, (-b) as nat);
    } else if a < 0 {
        lemma_decimal_nat_digits(b as nat);
        assert(decimal(a)[0] == '-');
        assert(is_digit_char(decimal_nat(b as nat)[0]));
    } else if b < 0 {
        lemma_decimal_nat_digits(a as nat);
        assert(decimal(b)[0] == '-');
        assert(is_digit_char(decimal_nat(a as nat)[0]));
    } else {
        lemma_decimal_nat_injective(a as nat, b as nat);
    }
}

fn digit_text(d: u8) -> (s: &'static str)
    requires
        d < 10,
    ensures
        s@ =~= seq![digit(d as int)],
{
    proof {
        reveal_strlit("0");
        reveal_strlit("1");
        reveal_strlit("2");
        reveal_strlit("3");
        reveal_strlit("4");
        reveal_strlit("5");
        reveal_strlit("6");
        reveal_strlit("7");
        reveal_strlit("8");
        reveal_strlit("9");
    }
    if d == 0 {
        "0"
    } else if d == 1 {
        "1"
    } else if d == 2 {
        "2"
    } else if d == 3 {
        "3"
    } else if d == 4 {
        "4"
    } else if d == 5 {
        "5"
    } else if d == 6 {
        "6"
    } else if d == 7 {
        "7"
    } else if d == 8 {
        "8"
    } else {
        "9"
    }
}

/// Writes an unsigned integer in decimal.
pub fn decimal_unsigned(n: u128) -> (s: String)
    ensures
        s@ == decimal(n as int),
        s@ == decimal_nat(n as nat),
    decreases n,
{
    if n < 10 {
        String::from_str(digit_text(n as u8))
    } else {
        let head = decimal_unsigned(n / 10);
        head.concat(digit_text((n % 10) as u8))
    }
}

/// Writes a signed integer in decimal.
pub fn decimal_signed(n: i128) -> (s: String)
    ensures
        s@ == decimal(n as int),
{
    if n < 0 {
        let magnitude: u128 = ((-(n + 1)) as u128) + 1;
        let digits = decimal_unsigned(magnitude);
        proof {
            reveal_strlit("-");
            assert("-"@ =~= seq!['-']);
        }
        String::from_str("-").concat(digits.as_str())
    } else {
        decimal_unsigned(n as u128)
    }
}

} // verus!
