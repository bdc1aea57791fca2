//! Numbers as they are written in options and files.

use vstd::prelude::*;
use vstd::string::*;

verus! {

/// The value of a decimal digit; nothing for any other character.
pub open spec fn digit_value(c: char) -> Option<int> {
    if '0' <= c <= '9' {
        Some(c as int - '0' as int)
    } else {
        None
    }
}

/// The number that a sequence of decimal digits denotes; nothing if a
/// character is not a digit. No digits denote zero.
pub open spec fn decimal_value(digits: Seq<char>) -> Option<int>
    decreases digits.len(),
{
    if digits.len() == 0 {
        Some(0)
    } else {
        match (decimal_value(digits.drop_last()), digit_value(digits.last())) {
            (Some(value), Some(digit)) => Some(10 * value + digit),
            _ => None,
        }
    }
}

/// The number that a text denotes, if it is at most `max`: the text is an
/// optional plus sign followed by at least one decimal digit, and by nothing
/// else.
pub open spec fn parsed_unsigned(text: Seq<char>, max: int) -> Option<int> {
    let digits = if text.len() > 0 && text[0] == '+' {
        text.drop_first()
    } else {
        text
    };
    if digits.len() == 0 {
        None
    } else {
        match decimal_value(digits) {
            Some(value) => if value <= max {
                Some(value)
            } else {
                None
            },
            None => None,
        }
    }
}

/// The number between 0 and 65535 that a text denotes.
pub open spec fn parsed_u16(text: Seq<char>) -> Option<u16> {
    match parsed_unsigned(text, 65535) {
        Some(value) => Some(value as u16),
        None => None,
    }
}

/// The number between 0 and 255 that a text denotes.
pub open spec fn parsed_u8(text: Seq<char>) -> Option<u8> {
    match parsed_unsigned(text, 255) {
        Some(value) => Some(value as u8),
        None => None,
    }
}

/// The value of digits is not negative, and at least the value of the
/// digits without the last.
proof fn lemma_decimal_grows(digits: Seq<char>)
    ensures
        decimal_value(digits) is Some ==> decimal_value(digits)->0 >= 0,
        digits.len() > 0 && decimal_value(digits) is Some ==> decimal_value(digits)->0
            >= decimal_value(digits.drop_last())->0,
    decreases digits.len(),
{
    if digits.len() > 0 {
        lemma_decimal_grows(digits.drop_last());
    }
}

/// Digits denote nothing, or more than `max`, once their beginning does.
proof fn lemma_decimal_stays_out(digits: Seq<char>, n: int, max: int)
    requires
        0 <= n <= digits.len(),
        decimal_value(digits.subrange(0, n)) is None || decimal_value(digits.subrange(0, n))->0
            > max,
    ensures
        decimal_value(digits) is None || decimal_value(digits)->0 > max,
    decreases digits.len() - n,
{
    if n < digits.len() {
        let longer = digits.subrange(0, n + 1);
        assert(longer.drop_last() == digits.subrange(0, n));
        lemma_decimal_grows(longer);
        lemma_decimal_stays_out(digits, n + 1, max);
    } else {
        assert(digits.subrange(0, n) == digits);
    }
}

/// Reads a number that is at most `max`.
pub fn parse_unsigned(text: &str, max: u64) -> (r: Option<u64>)
    ensures
        match r {
            Some(value) => parsed_unsigned(text@, max as int) == Some(value as int),
            None => parsed_unsigned(text@, max as int) is None,
        },
{
    let n = text.unicode_len();
    let start: usize = if n > 0 && text.get_char(0) == '+' {
        1
    } else {
        0
    };
    if start == n {
        return None;
    }
    let ghost digits = text@.subrange(start as int, n as int);
    assert(digits == if text@.len() > 0 && text@[0] == '+' {
        text@.drop_first()
    } else {
        text@
    });
    let mut value: u64 = 0;
    let mut i: usize = start;
    assert(digits.subrange(0, 0) =~= Seq::<char>::empty());
    while i < n
        invariant
            start <= i <= n == text@.len(),
            digits == text@.subrange(start as int, n as int),
            digits == if text@.len() > 0 && text@[0] == '+' {
                text@.drop_first()
            } else {
                text@
            },
            decimal_value(digits.subrange(0, i - start)) == Some(value as int),
            value <= max,
        decreases n - i,
    {
        let c = text.get_char(i);
        let ghost longer = digits.subrange(0, i - start + 1);
        assert(longer.drop_last() == digits.subrange(0, i - start));
        assert(longer.last() == c);
        if c < '0' || c > '9' {
            proof {
                assert(digit_value(c) is None);
                assert(decimal_value(longer) is None);
                lemma_decimal_stays_out(digits, i - start + 1, max as int);
            }
            return None;
        }
        let digit = c as u32 - '0' as u32;
        let next: u128 = 10 * (value as u128) + digit as u128;
        assert(digit_value(c) == Some(digit as int));
        assert(decimal_value(longer) == Some(next as int));
        if next > max as u128 {
            proof {
                lemma_decimal_stays_out(digits, i - start + 1, max as int);
            }
            return None;
        }
        value = next as u64;
        i += 1;
    }
    assert(digits.subrange(0, n - start) == digits);
    Some(value)
}

/// Reads a number between 0 and 65535.
pub fn parse_u16(text: &str) -> (r: Option<u16>)
    ensures
        r == parsed_u16(text@),
{
    match parse_unsigned(text, 65535) {
        Some(value) => Some(value as u16),
        None => None,
    }
}

/// Reads a number between 0 and 255.
pub fn parse_u8(text: &str) -> (r: Option<u8>)
    ensures
        r == parsed_u8(text@),
{
    match parse_unsigned(text, 255) {
        Some(value) => Some(value as u8),
        None => None,
    }
}

/// The number between 0 and the greatest `usize` that a text denotes.
pub open spec fn parsed_usize(text: Seq<char>) -> Option<usize> {
    match parsed_unsigned(text, usize::MAX as int) {
        Some(value) => Some(value as usize),
        None => None,
    }
}

/// Reads a number between 0 and the greatest `usize`.
pub fn parse_usize(text: &str) -> (r: Option<usize>)
    ensures
        r == parsed_usize(text@),
{
    match parse_unsigned(text, usize::MAX as u64) {
        Some(value) => Some(value as usize),
        None => None,
    }
}

/// The character of a digit.
pub open spec fn digit_char(digit: int) -> char
    recommends
        0 <= digit <= 9,
{
    ('0' as int + digit) as char
}

/// A number written in decimal digits, without leading zeros.
pub open spec fn decimal_text(n: nat) -> Seq<char>
    decreases n,
{
    if n < 10 {
        seq![digit_char(n as int)]
    } else {
        decimal_text(n / 10).push(digit_char((n % 10) as int))
    }
}

/// Writes a number in decimal digits.
pub fn format_number(n: usize) -> (r: String)
    ensures
        r@ == decimal_text(n as nat),
    decreases n,
{
    let digit = (('0' as u8) + (n % 10) as u8) as char;
    if n < 10 {
        let mut r = String::new();
        crate::text::push(&mut r, digit);
        assert(r@ =~= seq![digit]);
        r
    } else {
        let mut r = format_number(n / 10);
        crate::text::push(&mut r, digit);
        r
    }
}

} // verus!
