//! Amounts as the service writes them: in decimal, as text.

use vstd::prelude::*;

verus! {

/// The character of a digit.
pub open spec fn digit(d: nat) -> char {
    if d == 0 {
        '0'
    } else if d == 1 {
        '1'
    } else if d == 2 {
        '2'
    } else if d == 3 {
        '3'
    } else if d == 4 {
        '4'
    } else if d == 5 {
        '5'
    } else if d == 6 {
        '6'
    } else if d == 7 {
        '7'
    } else if d == 8 {
        '8'
    } else {
        '9'
    }
}

/// Whether the character is one of the ten digits.
pub open spec fn is_digit(c: char) -> bool {
    exists|d: nat| d < 10 && c == #[trigger] digit(d)
}

/// The digit that the character stands for.
pub open spec fn digit_value(c: char) -> nat {
    choose|d: nat| d < 10 && c == #[trigger] digit(d)
}

/// A number in decimal: its digits from the highest down, without leading
/// zeros, and `0` for zero.
pub open spec fn decimal(n: nat) -> Seq<char>
    decreases n,
{
    if n < 10 {
        seq![digit(n)]
    } else {
        decimal(n / 10).push(digit(n % 10))
    }
}

/// The number that a run of digits stands for.
pub open spec fn number(digits: Seq<char>) -> nat
    decreases digits.len(),
{
    if digits.len() == 0 {
        0
    } else {
        number(digits.drop_last()) * 10 + digit_value(digits.last())
    }
}

/// What a text reads as: a number, where the text is a run of one or more
/// digits, with or without one `+` before them, that stands for a number of at
/// most 128 bits.
pub open spec fn parsed(text: Seq<char>) -> Option<u128> {
    let digits = if text.len() > 0 && text[0] == '+' {
        text.skip(1)
    } else {
        text
    };
    if digits.len() > 0 && (forall|i: int| 0 <= i < digits.len() ==> is_digit(#[trigger] digits[i]))
        && number(digits) <= u128::MAX {
        Option::Some(number(digits) as u128)
    } else {
        Option::None
    }
}

/// A digit's character is a digit, stands for that digit, and is no sign.
pub proof fn lemma_digit(d: nat)
    requires
        d < 10,
    ensures
        is_digit(digit(d)),
        digit_value(digit(d)) == d,
        digit(d) != '+',
{
    let c = digit(d);
    assert(d < 10 && c == digit(d));
    let e = digit_value(c);
    assert(e < 10 && c == digit(e));
}

/// A number written in decimal is a run of digits that stands for the number.
pub proof fn lemma_decimal(n: nat)
    ensures
        decimal(n).len() > 0,
        decimal(n)[0] != '+',
        forall|i: int| 0 <= i < decimal(n).len() ==> is_digit(#[trigger] decimal(n)[i]),
        number(decimal(n)) == n,
    decreases n,
{
    if n < 10 {
        lemma_digit(n);
        assert(decimal(n).drop_last() =~= Seq::<char>::empty());
        assert(number(decimal(n).drop_last()) == 0);
    } else {
        lemma_decimal(n / 10);
        lemma_digit(n % 10);
        assert(decimal(n).drop_last() =~= decimal(n / 10));
    }
}

/// An amount that is written and then read is the amount.
pub proof fn written_amount_reads_back(num: u128)
    ensures
        parsed(decimal(num as nat)) == Some(num),
{
    lemma_decimal(num as nat);
}

/// Calls `u128::to_string` of the standard library. Claimed of it: the text is
/// the number in decimal, without sign or leading zeros.
#[verifier::external_body]
fn decimal_string(num: u128) -> (r: String)
    ensures
        r@ == decimal(num as nat),
{
    num.to_string()
}

/// Calls `str::parse::<u128>` of the standard library. Claimed of it: a text
/// is read as a number exactly where it is a run of one or more decimal
/// digits, after at most one `+`, whose value fits; anything else is refused.
#[verifier::external_body]
fn parse_decimal(text: &str) -> (r: Option<u128>)
    ensures
        r == parsed(text@),
{
    text.parse::<u128>().ok()
}

/// Writes an amount in decimal.
pub fn serialize(num: &u128) -> (r: String)
    ensures
        r@ == decimal(*num as nat),
{
    decimal_string(*num)
}

/// Reads an amount written in decimal; none where the text is no such amount.
pub fn deserialize(text: &str) -> (r: Option<u128>)
    ensures
        r == parsed(text@),
{
    parse_decimal(text)
}

} // verus!
