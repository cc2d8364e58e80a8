//! Coercion of a cell's text into a number.
//!
//! A number is written as decimal digits, which a single `+` may precede.
//! Anything else is no number: the empty text, a sign alone, a minus sign,
//! whitespace or other characters anywhere, or a value beyond the field's
//! range. Counters and indices read as zero where the text is no number; an
//! identifier that is no number fails the extraction.

use vstd::prelude::*;
use crate::error::ParseError;

verus! {

/// Whether a character is one of the ten decimal digits.
pub open spec fn is_digit(c: char) -> bool {
    '0' <= c <= '9'
}

/// The number that a decimal digit stands for.
pub open spec fn digit_value(c: char) -> nat {
    (c as nat - '0' as nat) as nat
}

/// The number that a run of decimal digits stands for, leading zeros
/// included.
pub open spec fn digits_value(digits: Seq<char>) -> nat
    decreases digits.len(),
{
    if digits.len() == 0 {
        0
    } else {
        digits_value(digits.drop_last()) * 10 + digit_value(digits.last())
    }
}

/// The text without the `+` that may stand in front of it.
pub open spec fn unsigned_digits(text: Seq<char>) -> Seq<char> {
    if text.len() > 0 && text[0] == '+' {
        text.drop_first()
    } else {
        text
    }
}

/// Whether a text is written as a number: at least one digit, and nothing
/// but digits behind the optional `+`.
pub open spec fn is_decimal(text: Seq<char>) -> bool {
    let digits = unsigned_digits(text);
    digits.len() > 0 && forall|i: int| 0 <= i < digits.len() ==> is_digit(#[trigger] digits[i])
}

/// The number that a text stands for, where it is written as one and the
/// number is no greater than `max`.
pub open spec fn decimal_value(text: Seq<char>, max: nat) -> Option<nat> {
    if is_decimal(text) && digits_value(unsigned_digits(text)) <= max {
        Some(digits_value(unsigned_digits(text)))
    } else {
        None
    }
}

/// The eight-bit number in a text, if it holds one.
pub open spec fn decimal_u8(text: Seq<char>) -> Option<u8> {
    match decimal_value(text, u8::MAX as nat) {
        Some(number) => Some(number as u8),
        None => None,
    }
}

/// The word-sized number in a text, if it holds one.
pub open spec fn decimal_usize(text: Seq<char>) -> Option<usize> {
    match decimal_value(text, usize::MAX as nat) {
        Some(number) => Some(number as usize),
        None => None,
    }
}

/// The value of a tolerant eight-bit field with the given text: the number
/// in it, or zero where it holds none.
pub open spec fn tolerant_u8(text: Seq<char>) -> u8 {
    match decimal_u8(text) {
        Some(number) => number,
        None => 0,
    }
}

/// The value of a tolerant word-sized field with the given text: the number
/// in it, or zero where it holds none.
pub open spec fn tolerant_usize(text: Seq<char>) -> usize {
    match decimal_usize(text) {
        Some(number) => number,
        None => 0,
    }
}

/// A run of characters stands for no less than any of its prefixes.
pub proof fn lemma_digits_value_prefix(digits: Seq<char>, len: int)
    requires
        0 <= len <= digits.len(),
    ensures
        digits_value(digits.subrange(0, len)) <= digits_value(digits),
    decreases digits.len(),
{
    if len == digits.len() {
        assert(digits.subrange(0, len) =~= digits);
    } else {
        lemma_digits_value_prefix(digits.drop_last(), len);
        assert(digits.drop_last().subrange(0, len) =~= digits.subrange(0, len));
    }
}

/// The number that a text stands for, if it is one and at most `max`.
pub fn parse_bounded(text: &str, max: u64) -> (value: Option<u64>)
    ensures
        value matches Some(number) ==> decimal_value(text@, max as nat) == Some(number as nat),
        value is None ==> decimal_value(text@, max as nat) is None,
{
    let chars = crate::text::chars_of(text);
    let first: usize = if chars.len() > 0 && chars[0] == '+' {
        1
    } else {
        0
    };
    let ghost digits = unsigned_digits(text@);
    assert(digits =~= text@.subrange(first as int, text@.len() as int));
    if first == chars.len() {
        return None;
    }
    let mut number: u64 = 0;
    let mut i: usize = first;
    while i < chars.len()
        invariant
            first <= i <= chars.len(),
            chars@ == text@,
            digits == unsigned_digits(text@),
            digits == text@.subrange(first as int, text@.len() as int),
            forall|k: int| 0 <= k < i - first ==> is_digit(#[trigger] digits[k]),
            number == digits_value(digits.subrange(0, i - first)),
            number <= max,
        decreases chars.len() - i,
    {
        let c = chars[i];
        assert(c == digits[i - first]);
        if c < '0' || c > '9' {
            assert(!is_digit(digits[i - first]));
            return None;
        }
        let digit: u64 = (c as u32 - '0' as u32) as u64;
        proof {
            let next = digits.subrange(0, i - first + 1);
            assert(next.drop_last() =~= digits.subrange(0, i - first));
            assert(next.last() == c);
            assert(digits_value(next) == number * 10 + digit);
            lemma_digits_value_prefix(digits, i - first + 1);
            assert(number * 10 + digit <= digits_value(digits));
        }
        let grown = match number.checked_mul(10) {
            Some(tens) => tens.checked_add(digit),
            None => None,
        };
        match grown {
            Some(sum) => {
                if sum > max {
                    return None;
                }
                number = sum;
            },
            None => {
                return None;
            },
        }
        i += 1;
    }
    assert(digits.subrange(0, digits.len() as int) =~= digits);
    Some(number)
}

/// The eight-bit number that a text stands for, if it stands for one.
pub fn parse_u8(text: &str) -> (value: Option<u8>)
    ensures
        value == decimal_u8(text@),
{
    match parse_bounded(text, 255) {
        Some(number) => Some(number as u8),
        None => None,
    }
}

/// The word-sized number that a text stands for, if it stands for one.
pub fn parse_usize(text: &str) -> (value: Option<usize>)
    ensures
        value == decimal_usize(text@),
{
    match parse_bounded(text, usize::MAX as u64) {
        Some(number) => Some(number as usize),
        None => None,
    }
}

/// A tolerant eight-bit field: the number in the text, or zero where the
/// text is no such number. It never fails.
pub fn coerce_u8_or_zero(text: &str) -> (value: u8)
    ensures
        value == tolerant_u8(text@),
{
    match parse_u8(text) {
        Some(number) => number,
        None => 0,
    }
}

/// A tolerant word-sized field: the number in the text, or zero where the
/// text is no such number. It never fails.
pub fn coerce_usize_or_zero(text: &str) -> (value: usize)
    ensures
        value == tolerant_usize(text@),
{
    match parse_usize(text) {
        Some(number) => number,
        None => 0,
    }
}

/// A strict eight-bit field: the number in the text, or a coercion failure
/// exactly where the text is no such number.
pub fn coerce_u8_strict(text: &str) -> (value: Result<u8, ParseError>)
    ensures
        match value {
            Ok(number) => decimal_u8(text@) == Some(number),
            Err(e) => e == ParseError::Coercion && decimal_u8(text@) is None,
        },
{
    match parse_u8(text) {
        Some(number) => Ok(number),
        None => Err(ParseError::Coercion),
    }
}

} // verus!
