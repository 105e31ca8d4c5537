//! Decimal numerals as they appear in command-line values.
//!
//! A numeral is an optional `+` followed by one or more ASCII digits. The
//! functions here read a numeral into a bounded unsigned integer and refuse
//! everything else, including values beyond the bound.

use vstd::prelude::*;
use vstd::utf8::encode_utf8;

verus! {

/// The byte of the ASCII digit `0`.
pub const ZERO_DIGIT: u8 = 48;

/// The byte of the ASCII plus sign.
pub const PLUS_SIGN: u8 = 43;

/// Whether `byte` is one of the ASCII digits `0` to `9`.
pub open spec fn is_digit(byte: u8) -> bool {
    ZERO_DIGIT <= byte && byte <= ZERO_DIGIT + 9
}

/// Whether every byte of `bytes` is an ASCII digit.
pub open spec fn all_digits(bytes: Seq<u8>) -> bool {
    forall|i: int| 0 <= i < bytes.len() ==> is_digit(#[trigger] bytes[i])
}

/// The number that a run of digits denotes in base ten; the empty run denotes zero.
pub open spec fn digits_value(digits: Seq<u8>) -> nat
    decreases digits.len(),
{
    if digits.len() == 0 {
        0
    } else {
        (digits_value(digits.drop_last()) * 10 + (digits.last() - ZERO_DIGIT)) as nat
    }
}

/// The digits of a numeral: the text without its one optional leading `+`.
pub open spec fn numeral_digits(text: Seq<u8>) -> Seq<u8> {
    if text.len() > 0 && text[0] == PLUS_SIGN {
        text.subrange(1, text.len() as int)
    } else {
        text
    }
}

/// Whether `text` is a numeral: an optional `+`, then at least one digit and nothing else.
pub open spec fn is_numeral(text: Seq<u8>) -> bool {
    numeral_digits(text).len() > 0 && all_digits(numeral_digits(text))
}

/// The number that the numeral `text` denotes.
pub open spec fn numeral_value(text: Seq<u8>) -> nat {
    digits_value(numeral_digits(text))
}

/// What reading `text` as a number no greater than `max` gives: the number,
/// or nothing where `text` is no numeral or denotes more than `max`.
pub open spec fn read_bounded(text: Seq<u8>, max: nat) -> Option<nat> {
    if is_numeral(text) && numeral_value(text) <= max {
        Some(numeral_value(text))
    } else {
        None
    }
}

/// What reading the characters `text` as a number no greater than `max`
/// gives. The characters are taken in their UTF-8 encoding, so that a
/// character beyond ASCII is never a digit.
pub open spec fn read_number(text: Seq<char>, max: nat) -> Option<nat> {
    read_bounded(encode_utf8(text), max)
}

/// The shortest run of digits that denotes `n`.
pub open spec fn decimal_text(n: nat) -> Seq<u8>
    decreases n,
{
    if n < 10 {
        seq![(ZERO_DIGIT + n) as u8]
    } else {
        decimal_text(n / 10).push((ZERO_DIGIT + n % 10) as u8)
    }
}

/// A run of digits denotes at least what any of its prefixes denotes.
pub proof fn lemma_prefix_value_bounded(digits: Seq<u8>, k: int)
    requires
        all_digits(digits),
        0 <= k <= digits.len(),
    ensures
        digits_value(digits.take(k)) <= digits_value(digits),
    decreases digits.len(),
{
    if k == digits.len() {
        assert(digits.take(k) =~= digits);
    } else {
        let shorter = digits.drop_last();
        assert(shorter.take(k) =~= digits.take(k));
        assert(all_digits(shorter)) by {
            assert forall|i: int| 0 <= i < shorter.len() implies is_digit(#[trigger] shorter[i]) by {
                assert(shorter[i] == digits[i]);
            }
        }
        lemma_prefix_value_bounded(shorter, k);
        assert(is_digit(digits[digits.len() - 1]));
    }
}

/// Writing a number in decimal and reading it back gives the number: the
/// written text is a numeral, holds digits only, and denotes `n`.
pub proof fn lemma_decimal_text_round_trip(n: nat)
    ensures
        decimal_text(n).len() > 0,
        all_digits(decimal_text(n)),
        is_numeral(decimal_text(n)),
        numeral_value(decimal_text(n)) == n,
        forall|max: nat| n <= max ==> read_bounded(decimal_text(n), max) == Some(n),
    decreases n,
{
    let text = decimal_text(n);
    if n < 10 {
        assert(text.len() == 1);
        assert(text[0] == ZERO_DIGIT + n);
        assert(text.drop_last() =~= Seq::<u8>::empty());
        assert(digits_value(text.drop_last()) == 0);
        assert(digits_value(text) == n);
    } else {
        let head = decimal_text(n / 10);
        lemma_decimal_text_round_trip(n / 10);
        assert(text == head.push((ZERO_DIGIT + n % 10) as u8));
        assert(text.drop_last() =~= head);
        assert(text.last() == ZERO_DIGIT + n % 10);
        assert(all_digits(text)) by {
            assert forall|i: int| 0 <= i < text.len() implies is_digit(#[trigger] text[i]) by {
                if i < head.len() {
                    assert(text[i] == head[i]);
                }
            }
        }
        assert(numeral_digits(head) == head);
        assert(digits_value(text) == n);
    }
    assert(text[0] != PLUS_SIGN);
    assert(numeral_digits(text) == text);
}

/// The bytes that ASCII characters are read as are the characters
/// themselves, one byte for each: so a numeral in text can be held against
/// `read_number` digit by digit.
pub proof fn lemma_ascii_text_is_read_as_written(text: Seq<char>)
    requires
        vstd::utf8::is_ascii_chars(text),
    ensures
        encode_utf8(text) == Seq::new(text.len(), |i: int| text[i] as u8),
{
    vstd::utf8::is_ascii_chars_encode_utf8(text);
    assert(encode_utf8(text) =~= Seq::new(text.len(), |i: int| text[i] as u8));
}

/// Reads `text` as a decimal numeral no greater than `max`.
///
/// Gives the denoted number exactly when `text` is a numeral within the
/// bound; any other text, and any numeral beyond the bound, gives `None`.
pub fn parse_bounded(text: &str, max: u64) -> (value: Option<u64>)
    ensures
        match read_number(text@, max as nat) {
            Some(n) => value == Some(n as u64),
            None => value is None,
        },
{
    let bytes = text.as_bytes();
    let len: usize = bytes.len();
    let start: usize = if len > 0 && bytes[0] == PLUS_SIGN { 1 } else { 0 };
    if start == len {
        return None;
    }
    let ghost digits = numeral_digits(bytes@);
    assert(digits =~= bytes@.subrange(start as int, len as int));
    let mut acc: u64 = 0;
    let mut i: usize = start;
    while i < len
        invariant
            start <= i <= len,
            len == bytes@.len(),
            bytes@ == encode_utf8(text@),
            digits == numeral_digits(bytes@),
            digits == bytes@.subrange(start as int, len as int),
            all_digits(digits.take(i - start)),
            acc == digits_value(digits.take(i - start)),
            acc <= max,
        decreases len - i,
    {
        let byte: u8 = bytes[i];
        let ghost seen = digits.take(i - start);
        let ghost next = digits.take(i - start + 1);
        assert(next.drop_last() =~= seen);
        assert(next.last() == byte);
        if byte < ZERO_DIGIT || byte > ZERO_DIGIT + 9 {
            assert(!is_digit(digits[i - start]));
            return None;
        }
        let digit: u64 = (byte - ZERO_DIGIT) as u64;
        assert(all_digits(next)) by {
            assert forall|j: int| 0 <= j < next.len() implies is_digit(#[trigger] next[j]) by {
                if j < seen.len() {
                    assert(next[j] == seen[j]);
                }
            }
        }
        if digit > max || acc > (max - digit) / 10 {
            proof {
                assert(digits_value(next) > max);
                if all_digits(digits) {
                    lemma_prefix_value_bounded(digits, i - start + 1);
                }
            }
            return None;
        }
        acc = acc * 10 + digit;
        i = i + 1;
    }
    assert(digits.take(i - start) =~= digits);
    Some(acc)
}

/// Reads `text` as a `u64`.
pub fn parse_u64(text: &str) -> (value: Option<u64>)
    ensures
        match read_number(text@, u64::MAX as nat) {
            Some(n) => value == Some(n as u64),
            None => value is None,
        },
{
    parse_bounded(text, u64::MAX)
}

/// Reads `text` as a `u16`.
pub fn parse_u16(text: &str) -> (value: Option<u16>)
    ensures
        match read_number(text@, u16::MAX as nat) {
            Some(n) => value == Some(n as u16),
            None => value is None,
        },
{
    match parse_bounded(text, 65535) {
        Some(n) => Some(n as u16),
        None => None,
    }
}

/// Reads `text` as a `usize`.
pub fn parse_usize(text: &str) -> (value: Option<usize>)
    ensures
        match read_number(text@, usize::MAX as nat) {
            Some(n) => value == Some(n as usize),
            None => value is None,
        },
{
    match parse_bounded(text, usize::MAX as u64) {
        Some(n) => Some(n as usize),
        None => None,
    }
}

} // verus!
