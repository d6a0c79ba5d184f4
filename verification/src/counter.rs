//! Counting visits: the count that a cookie carries as decimal text, and the count after it.

use vstd::prelude::*;
use vstd::string::*;
use vstd::utf8::{is_ascii_chars, is_ascii_chars_encode_utf8};

verus! {

/// True of the ten decimal digits.
pub open spec fn is_digit(c: char) -> bool {
    '0' <= c && c <= '9'
}

/// True where every character is a decimal digit.
pub open spec fn all_digits(digits: Seq<char>) -> bool {
    forall|i: int| 0 <= i < digits.len() ==> is_digit(#[trigger] digits[i])
}

/// The number that a sequence of decimal digits spells. Leading zeros count for nothing.
pub open spec fn decimal_value(digits: Seq<char>) -> int
    decreases digits.len(),
{
    if digits.len() == 0 {
        0
    } else {
        decimal_value(digits.drop_last()) * 10 + (digits.last() as int - '0' as int)
    }
}

/// True where the text begins with a sign.
pub open spec fn is_signed(text: Seq<char>) -> bool {
    text.len() > 0 && (text[0] == '-' || text[0] == '+')
}

/// The digits of a text: what follows its sign, or all of it where it has none.
pub open spec fn digits_of(text: Seq<char>) -> Seq<char> {
    if is_signed(text) {
        text.skip(1)
    } else {
        text
    }
}

/// The number that a text spells without regard to its size.
pub open spec fn signed_value(text: Seq<char>) -> int {
    if text.len() > 0 && text[0] == '-' {
        -decimal_value(digits_of(text))
    } else {
        decimal_value(digits_of(text))
    }
}

/// The 32-bit number that a decimal text spells: an optional sign, then one digit or more and
/// nothing else, for a number that fits. Every other text spells none.
pub open spec fn decimal_i32(text: Seq<char>) -> Option<i32> {
    if digits_of(text).len() > 0 && all_digits(digits_of(text)) && i32::MIN <= signed_value(text)
        <= i32::MAX {
        Some(signed_value(text) as i32)
    } else {
        None
    }
}

/// The number spelt by the first digits of a sequence is never negative and never above the
/// number spelt by all of them.
proof fn lemma_prefix_value(digits: Seq<char>, count: int)
    requires
        all_digits(digits),
        0 <= count <= digits.len(),
    ensures
        0 <= decimal_value(digits.take(count)) <= decimal_value(digits),
    decreases digits.len() - count,
{
    lemma_value_is_natural(digits.take(count));
    if count == digits.len() {
        assert(digits.take(count) =~= digits);
    } else {
        lemma_prefix_value(digits, count + 1);
        assert(digits.take(count + 1).drop_last() =~= digits.take(count));
    }
}

proof fn lemma_value_is_natural(digits: Seq<char>)
    requires
        all_digits(digits),
    ensures
        0 <= decimal_value(digits),
    decreases digits.len(),
{
    if digits.len() > 0 {
        lemma_value_is_natural(digits.drop_last());
    }
}

/// A text that spells a number is made of ASCII characters alone.
proof fn lemma_numbers_are_ascii(text: Seq<char>)
    requires
        decimal_i32(text) is Some,
    ensures
        is_ascii_chars(text),
{
    let digits = digits_of(text);
    assert forall|i: int| 0 <= i < text.len() implies '\0' <= #[trigger] text[i] <= '\u{7f}' by {
        if is_signed(text) && i > 0 {
            assert(is_digit(digits[i - 1]));
        }
    }
}

/// Reads a decimal count, as `str::parse::<i32>` does: an optional sign and then digits, with
/// no space or other character anywhere, for a number that fits in 32 bits.
pub fn parse_count(text: &str) -> (count: Option<i32>)
    ensures
        count == decimal_i32(text@),
{
    if !text.is_ascii() {
        proof {
            if decimal_i32(text@) is Some {
                lemma_numbers_are_ascii(text@);
            }
        }
        return None;
    }
    let bytes = text.as_bytes();
    proof {
        is_ascii_chars_encode_utf8(text@);
    }
    let length = bytes.len();
    if length == 0 {
        return None;
    }
    let negative = bytes[0] == 45u8;
    let start: usize = if bytes[0] == 45u8 || bytes[0] == 43u8 {
        1
    } else {
        0
    };
    let ghost digits = digits_of(text@);
    let mut value: i64 = 0;
    let mut at: usize = start;
    while at < length
        invariant
            start <= at <= length,
            length == text@.len(),
            bytes@.len() == length,
            is_ascii_chars(text@),
            forall|i: int| 0 <= i < length ==> text@[i] as u8 == #[trigger] bytes@[i],
            digits == digits_of(text@),
            digits == text@.skip(start as int),
            forall|i: int| 0 <= i < at - start ==> is_digit(#[trigger] digits[i]),
            value == decimal_value(digits.take(at - start)),
            0 <= value <= 2147483648,
        decreases length - at,
    {
        let byte = bytes[at];
        if byte < 48u8 || byte > 57u8 {
            assert(!is_digit(digits[at - start]));
            return None;
        }
        let digit: i64 = (byte - 48u8) as i64;
        assert(digits.take(at - start + 1).drop_last() =~= digits.take(at - start));
        value = value * 10 + digit;
        at = at + 1;
        if value > 2147483648 {
            proof {
                if all_digits(digits) {
                    lemma_prefix_value(digits, at - start);
                }
            }
            return None;
        }
    }
    if start == length {
        return None;
    }
    assert(digits.take(at - start) =~= digits);
    if negative {
        Some((-value) as i32)
    } else if value == 2147483648 {
        None
    } else {
        Some(value as i32)
    }
}

/// The count that follows `count`, where there is one.
pub open spec fn successor(count: i32) -> Option<i32> {
    if count < i32::MAX {
        Some((count + 1) as i32)
    } else {
        None
    }
}

/// Raises a count by one. The largest count has no successor.
pub fn next_count(count: i32) -> (next: Option<i32>)
    ensures
        next == successor(count),
{
    if count < i32::MAX {
        Some(count + 1)
    } else {
        None
    }
}

/// The visit count to store, given the text of the cookie that came with the request: nought
/// on a first visit, one more than the cookie's count on a later one, and one where the
/// cookie's text is no number.
pub open spec fn visit_after(cookie: Option<Seq<char>>) -> Option<i32> {
    match cookie {
        None => Some(0i32),
        Some(text) => match decimal_i32(text) {
            Some(count) => successor(count),
            None => Some(1i32),
        },
    }
}

/// Model of an optional text.
pub open spec fn text_view(text: Option<&str>) -> Option<Seq<char>> {
    match text {
        Some(t) => Some(t@),
        None => None,
    }
}

/// Computes the visit count to store. `None` means that the cookie already holds the largest
/// count there is.
pub fn next_visit(cookie: Option<&str>) -> (count: Option<i32>)
    ensures
        count == visit_after(text_view(cookie)),
{
    match cookie {
        None => Some(0),
        Some(text) => match parse_count(text) {
            Some(seen) => next_count(seen),
            None => Some(1),
        },
    }
}

} // verus!
