//! Decimal numerals: reading a signed integer from text and writing one out.

use vstd::prelude::*;
use vstd::string::{is_ascii_spec_bytes, StringExecFns};

verus! {

const ASCII_MINUS: u8 = 45;

const ASCII_ZERO: u8 = 48;

const ASCII_NINE: u8 = 57;

/// One of the ten digits `0` to `9`.
pub open spec fn is_digit(c: char) -> bool {
    '0' <= c <= '9'
}

/// The number that the digit `c` writes.
pub open spec fn digit_value(c: char) -> int {
    c as int - 48
}

/// The number that a run of decimal digits writes; 0 for the empty run.
pub open spec fn digits_value(digits: Seq<char>) -> int
    decreases digits.len(),
{
    if digits.len() == 0 {
        0
    } else {
        10 * digits_value(digits.drop_last()) + digit_value(digits.last())
    }
}

/// Every character of `text` is a digit.
pub open spec fn all_digits(text: Seq<char>) -> bool {
    forall|i: int| 0 <= i < text.len() ==> is_digit(#[trigger] text[i])
}

/// The text starts with `-`.
pub open spec fn has_minus_sign(text: Seq<char>) -> bool {
    text.len() > 0 && text[0] == '-'
}

/// The text without its minus sign, if it has one.
pub open spec fn magnitude_text(text: Seq<char>) -> Seq<char> {
    if has_minus_sign(text) {
        text.skip(1)
    } else {
        text
    }
}

/// A base-10 integer: an optional `-`, then one or more digits `0` to `9`,
/// and nothing else.
pub open spec fn is_integer_text(text: Seq<char>) -> bool {
    magnitude_text(text).len() > 0 && all_digits(magnitude_text(text))
}

/// The integer that `text` writes, of whatever size.
pub open spec fn integer_value(text: Seq<char>) -> int {
    if has_minus_sign(text) {
        -digits_value(magnitude_text(text))
    } else {
        digits_value(magnitude_text(text))
    }
}

/// What reading a text as a 64-bit integer comes to.
#[derive(Clone, Copy, Debug, PartialEq, Eq, Structural)]
pub enum ParsedInteger {
    /// The text is not a base-10 integer.
    Malformed,
    /// The text is a base-10 integer that does not fit in 64 bits.
    TooLarge,
    /// The text is a base-10 integer with this value.
    Value(i64),
}

/// What reading `text` as a 64-bit integer comes to.
pub open spec fn parsed_integer(text: Seq<char>) -> ParsedInteger {
    if !is_integer_text(text) {
        ParsedInteger::Malformed
    } else if i64::MIN <= integer_value(text) <= i64::MAX {
        ParsedInteger::Value(integer_value(text) as i64)
    } else {
        ParsedInteger::TooLarge
    }
}

/// Reads `text` as a base-10 integer of 64 bits. The whole text is read: a
/// text that is no integer is reported as malformed however long its run of
/// digits is.
pub fn parse_integer(text: &str) -> (parsed: ParsedInteger)
    ensures
        parsed == parsed_integer(text@),
{
    if !text.is_ascii() {
        proof {
            // A character outside ASCII is neither a digit nor the sign.
            if is_integer_text(text@) {
                let magnitude = magnitude_text(text@);
                assert forall|i: int| 0 <= i < text@.len() implies '\0' <= #[trigger] text@[i]
                    <= '\u{7f}' by {
                    if has_minus_sign(text@) && i > 0 {
                        assert(is_digit(magnitude[i - 1]));
                    }
                }
            }
        }
        return ParsedInteger::Malformed;
    }
    let bytes = text.as_bytes();
    let length = bytes.len();
    proof {
        is_ascii_spec_bytes(text);
    }
    if length == 0 {
        return ParsedInteger::Malformed;
    }
    let negative = bytes[0] == ASCII_MINUS;
    let first: usize = if negative {
        1
    } else {
        0
    };
    if first == length {
        return ParsedInteger::Malformed;
    }
    let ghost magnitude = magnitude_text(text@);
    let mut position: usize = first;
    let mut value: u64 = 0;
    let mut too_large = false;
    while position < length
        invariant
            length == text@.len(),
            bytes@.len() == length,
            forall|i: int| 0 <= i < text@.len() ==> #[trigger] bytes@[i] == text@[i] as u8,
            magnitude == magnitude_text(text@),
            magnitude.len() == length - first,
            forall|i: int| 0 <= i < magnitude.len() ==> #[trigger] magnitude[i] == text@[i + first],
            forall|i: int| 0 <= i < text@.len() ==> '\0' <= #[trigger] text@[i] <= '\u{7f}',
            first <= position <= length,
            all_digits(magnitude.take(position - first)),
            !too_large ==> value == digits_value(magnitude.take(position - first)),
            !too_large ==> value <= 0x8000_0000_0000_0000,
            too_large ==> digits_value(magnitude.take(position - first)) > 0x8000_0000_0000_0000,
        decreases length - position,
    {
        let byte = bytes[position];
        let ghost seen = magnitude.take(position - first);
        let ghost next = magnitude.take(position - first + 1);
        proof {
            let c = text@[position as int];
            assert(magnitude[position - first] == c);
        }
        if byte < ASCII_ZERO || byte > ASCII_NINE {
            return ParsedInteger::Malformed;
        }
        proof {
            assert(next.drop_last() =~= seen);
            assert(all_digits(next));
        }
        let digit = (byte - ASCII_ZERO) as u64;
        // The magnitude is followed up to 2^63, the largest that a 64-bit
        // integer can have; past that only the digits are checked.
        if !too_large {
            if value > 922_337_203_685_477_580 {
                too_large = true;
            } else {
                let longer = value * 10 + digit;
                if longer > 0x8000_0000_0000_0000 {
                    too_large = true;
                } else {
                    value = longer;
                }
            }
        }
        position = position + 1;
    }
    proof {
        assert(magnitude.take(position - first) =~= magnitude);
    }
    if too_large {
        ParsedInteger::TooLarge
    } else if negative {
        if value == 0x8000_0000_0000_0000 {
            ParsedInteger::Value(i64::MIN)
        } else {
            ParsedInteger::Value(-(value as i64))
        }
    } else if value > 0x7fff_ffff_ffff_ffff {
        ParsedInteger::TooLarge
    } else {
        ParsedInteger::Value(value as i64)
    }
}

/// The character that writes the digit `digit`.
pub open spec fn digit_char(digit: int) -> char {
    if digit == 0 {
        '0'
    } else if digit == 1 {
        '1'
    } else if digit == 2 {
        '2'
    } else if digit == 3 {
        '3'
    } else if digit == 4 {
        '4'
    } else if digit == 5 {
        '5'
    } else if digit == 6 {
        '6'
    } else if digit == 7 {
        '7'
    } else if digit == 8 {
        '8'
    } else {
        '9'
    }
}

/// The digits of `number` in base 10, most significant first, without
/// leading zeros.
pub open spec fn digits_text(number: nat) -> Seq<char>
    decreases number,
{
    if number < 10 {
        seq![digit_char(number as int)]
    } else {
        digits_text(number / 10).push(digit_char((number % 10) as int))
    }
}

/// `number` in base 10, with a minus sign if it is negative.
pub open spec fn decimal_text(number: int) -> Seq<char> {
    if number < 0 {
        seq!['-'] + digits_text((-number) as nat)
    } else {
        digits_text(number as nat)
    }
}

/// `number` in two digits, with a leading zero below 10.
pub open spec fn two_digit_text(number: int) -> Seq<char> {
    seq![digit_char(number / 10), digit_char(number % 10)]
}

/// Reading what was written gives the number back.
pub proof fn lemma_decimal_text_round_trip(number: int)
    ensures
        is_integer_text(decimal_text(number)),
        integer_value(decimal_text(number)) == number,
{
    if number < 0 {
        let digits = digits_text((-number) as nat);
        lemma_digits_text_round_trip((-number) as nat);
        assert(decimal_text(number).skip(1) =~= digits);
    } else {
        lemma_digits_text_round_trip(number as nat);
    }
}

proof fn lemma_digits_text_round_trip(number: nat)
    ensures
        digits_text(number).len() > 0,
        all_digits(digits_text(number)),
        digits_value(digits_text(number)) == number,
    decreases number,
{
    let text = digits_text(number);
    if number < 10 {
        assert(digits_value(text.drop_last()) == 0);
    } else {
        lemma_digits_text_round_trip(number / 10);
        assert(text.drop_last() =~= digits_text(number / 10));
    }
}

fn digit_str(digit: u32) -> (text: &'static str)
    requires
        digit < 10,
    ensures
        text@ == seq![digit_char(digit as int)],
{
    proof {
        reveal_strlit("0");
        reveal_strlit("1");
        reveal_strlit("2");
        reveal_strlit("3");
        reveal_strlit("4");
        reveal_strlit("5");
        reveal_strlit("6");
        reveal_strlit("7");
        reveal_strlit("8");
        reveal_strlit("9");
    }
    match digit {
        0 => "0",
        1 => "1",
        2 => "2",
        3 => "3",
        4 => "4",
        5 => "5",
        6 => "6",
        7 => "7",
        8 => "8",
        _ => "9",
    }
}

fn append_digits(out: &mut String, number: u32)
    ensures
        final(out)@ == old(out)@ + digits_text(number as nat),
    decreases number,
{
    if number >= 10 {
        append_digits(out, number / 10);
    }
    out.append(digit_str(number % 10));
}

/// Writes `number` in base 10 at the end of `out`.
pub fn append_decimal(out: &mut String, number: i32)
    ensures
        final(out)@ == old(out)@ + decimal_text(number as int),
{
    if number < 0 {
        proof {
            reveal_strlit("-");
        }
        out.append("-");
        append_digits(out, (-(number as i64)) as u32);
    } else {
        append_digits(out, number as u32);
    }
}

/// Writes `number` in two digits at the end of `out`.
pub(crate) fn append_two_digits(out: &mut String, number: u32)
    requires
        number < 100,
    ensures
        final(out)@ == old(out)@ + two_digit_text(number as int),
{
    out.append(digit_str(number / 10));
    out.append(digit_str(number % 10));
}

} // verus!
