//! Text primitives that the rest of the library is built on: comparison,
//! normalisation, decimal numbers and splitting at a separator.

use std::num::ParseIntError;
use vstd::prelude::*;

verus! {

/// `std::num::ParseIntError`, carried through as it comes.
#[verifier::external_type_specification]
#[verifier::external_body]
pub struct ExParseIntError(ParseIntError);

/// Whether `c` is white space: one of the characters with the Unicode
/// property `White_Space`.
pub open spec fn is_white_space(c: char) -> bool {
    let code: u32 = c as u32;
    ||| 0x09 <= code <= 0x0D
    ||| code == 0x20
    ||| code == 0x85
    ||| code == 0xA0
    ||| code == 0x1680
    ||| 0x2000 <= code <= 0x200A
    ||| code == 0x2028
    ||| code == 0x2029
    ||| code == 0x202F
    ||| code == 0x205F
    ||| code == 0x3000
}

/// How many characters of white space `text` starts with.
pub open spec fn leading_white_space(text: Seq<char>) -> nat
    decreases text.len(),
{
    if text.len() == 0 || !is_white_space(text[0]) {
        0
    } else {
        1 + leading_white_space(text.skip(1))
    }
}

/// How many characters of white space `text` ends with.
pub open spec fn trailing_white_space(text: Seq<char>) -> nat
    decreases text.len(),
{
    if text.len() == 0 || !is_white_space(text.last()) {
        0
    } else {
        1 + trailing_white_space(text.drop_last())
    }
}

/// The text without the white space that it ends with.
pub open spec fn trimmed_end(text: Seq<char>) -> Seq<char> {
    text.take(text.len() - trailing_white_space(text))
}

/// The text without the white space that it starts and ends with.
pub open spec fn trimmed(text: Seq<char>) -> Seq<char> {
    trimmed_end(text.skip(leading_white_space(text) as int))
}

/// The error that `str::parse` for `usize` gives for `text`, where it gives
/// one.
pub uninterp spec fn usize_parse_error(text: Seq<char>) -> ParseIntError;

/// The error that `str::parse` for `u8` gives for `text`, where it gives one.
pub uninterp spec fn u8_parse_error(text: Seq<char>) -> ParseIntError;

/// What `str::to_lowercase` gives for `text`: its lower-case equivalent.
pub uninterp spec fn lowercased(text: Seq<char>) -> Seq<char>;

/// What formatting `text` with `{:?}` gives: the text between double quotes,
/// with the characters that need it escaped.
pub uninterp spec fn quoted(text: Seq<char>) -> Seq<char>;

/// The decimal digit for `digit`, which is below ten.
pub open spec fn digit_char(digit: nat) -> char {
    if digit == 0 {
        '0'
    } else if digit == 1 {
        '1'
    } else if digit == 2 {
        '2'
    } else if digit == 3 {
        '3'
    } else if digit == 4 {
        '4'
    } else if digit == 5 {
        '5'
    } else if digit == 6 {
        '6'
    } else if digit == 7 {
        '7'
    } else if digit == 8 {
        '8'
    } else {
        '9'
    }
}

/// The decimal notation of `n`, without leading zeros.
pub open spec fn decimal_digits(n: nat) -> Seq<char>
    decreases n,
{
    if n < 10 {
        seq![digit_char(n)]
    } else {
        decimal_digits(n / 10).push(digit_char(n % 10))
    }
}

/// Whether `c` is one of the ten decimal digits.
pub open spec fn is_digit(c: char) -> bool {
    '0' <= c <= '9'
}

/// The number that a sequence of decimal digits denotes; leading zeros count
/// for nothing, and no digits denote zero.
pub open spec fn decimal_value(digits: Seq<char>) -> nat
    decreases digits.len(),
{
    if digits.len() == 0 {
        0
    } else {
        10 * decimal_value(digits.drop_last()) + (digits.last() as nat - '0' as nat) as nat
    }
}

/// The digits of an unsigned decimal number: the text without the one `+`
/// that may stand in front.
pub open spec fn unsigned_digits(text: Seq<char>) -> Seq<char> {
    if text.len() > 0 && text[0] == '+' {
        text.skip(1)
    } else {
        text
    }
}

/// Whether `text` is an unsigned decimal number no greater than `max`: an
/// optional `+`, then one digit or more and nothing else.
pub open spec fn is_decimal_up_to(text: Seq<char>, max: nat) -> bool {
    let digits = unsigned_digits(text);
    &&& digits.len() > 0
    &&& forall|i: int| 0 <= i < digits.len() ==> is_digit(#[trigger] digits[i])
    &&& decimal_value(digits) <= max
}

/// The index of the first `separator` in `text`, or the length of `text`
/// where there is none.
pub open spec fn first_index_of(text: Seq<char>, separator: char) -> int
    decreases text.len(),
{
    if text.len() == 0 || text[0] == separator {
        0
    } else {
        1 + first_index_of(text.skip(1), separator)
    }
}

/// The part of `text` before its first `separator`: the whole text where
/// there is none.
pub open spec fn before_first(text: Seq<char>, separator: char) -> Seq<char> {
    text.take(first_index_of(text, separator))
}

/// The part of `text` after its first `separator`, where there is one.
pub open spec fn after_first(text: Seq<char>, separator: char) -> Option<Seq<char>> {
    let at = first_index_of(text, separator);
    if at < text.len() {
        Some(text.skip(at + 1))
    } else {
        None
    }
}

/// Calls `==` of `str`: whether the two texts hold the same characters.
#[verifier::external_body]
pub(crate) fn same_text(left: &str, right: &str) -> (same: bool)
    ensures
        same == (left@ == right@),
{
    left == right
}

/// Calls `str::trim`. The result is the text without the white space, in
/// the sense of Unicode's `White_Space`, that it starts and ends with.
#[verifier::external_body]
pub(crate) fn trim(text: &str) -> (inner: &str)
    ensures
        inner@ == trimmed(text@),
{
    text.trim()
}

/// Calls `str::to_lowercase`. The result is the named text `lowercased`.
#[verifier::external_body]
pub(crate) fn to_lowercase(text: &str) -> (lower: String)
    ensures
        lower@ == lowercased(text@),
{
    text.to_lowercase()
}

/// Formats `text` with `{:?}`, the `Debug` form of `str`. The result is the
/// named text `quoted`.
#[verifier::external_body]
pub(crate) fn quote(text: &str) -> (literal: String)
    ensures
        literal@ == quoted(text@),
{
    format!("{:?}", text)
}

/// Calls `str::parse` for `usize`. It succeeds exactly on an optional `+`
/// followed by one decimal digit or more that denote a number in range, and
/// then gives that number; otherwise it gives the named error
/// `usize_parse_error`.
#[verifier::external_body]
pub(crate) fn parse_usize(text: &str) -> (parsed: Result<usize, ParseIntError>)
    ensures
        parsed is Ok <==> is_decimal_up_to(text@, usize::MAX as nat),
        parsed matches Ok(n) ==> n == decimal_value(unsigned_digits(text@)),
        parsed matches Err(reason) ==> reason == usize_parse_error(text@),
{
    text.parse::<usize>()
}

/// Calls `str::parse` for `u8`. It succeeds exactly on an optional `+`
/// followed by one decimal digit or more that denote a number up to 255, and
/// then gives that number; otherwise it gives the named error
/// `u8_parse_error`.
#[verifier::external_body]
pub(crate) fn parse_u8(text: &str) -> (parsed: Result<u8, ParseIntError>)
    ensures
        parsed is Ok <==> is_decimal_up_to(text@, u8::MAX as nat),
        parsed matches Ok(n) ==> n == decimal_value(unsigned_digits(text@)),
        parsed matches Err(reason) ==> reason == u8_parse_error(text@),
{
    text.parse::<u8>()
}

/// The text of one decimal digit.
fn digit_text(digit: usize) -> (text: &'static str)
    requires
        digit < 10,
    ensures
        text@ == seq![digit_char(digit as nat)],
{
    proof {
        reveal_strlit("0");
        reveal_strlit("1");
        reveal_strlit("2");
        reveal_strlit("3");
        reveal_strlit("4");
        reveal_strlit("5");
        reveal_strlit("6");
        reveal_strlit("7");
        reveal_strlit("8");
        reveal_strlit("9");
    }
    let text = if digit == 0 {
        "0"
    } else if digit == 1 {
        "1"
    } else if digit == 2 {
        "2"
    } else if digit == 3 {
        "3"
    } else if digit == 4 {
        "4"
    } else if digit == 5 {
        "5"
    } else if digit == 6 {
        "6"
    } else if digit == 7 {
        "7"
    } else if digit == 8 {
        "8"
    } else {
        "9"
    };
    assert(text@ =~= seq![digit_char(digit as nat)]);
    text
}

/// The decimal notation of `n`.
pub fn decimal(n: usize) -> (text: String)
    ensures
        text@ == decimal_digits(n as nat),
    decreases n,
{
    if n < 10 {
        String::from_str(digit_text(n))
    } else {
        let mut text = decimal(n / 10);
        text.append(digit_text(n % 10));
        assert(text@ =~= decimal_digits(n as nat));
        text
    }
}

/// The number of characters before the first `separator` in `text`.
fn find_first(text: &str, separator: char) -> (at: usize)
    ensures
        at == first_index_of(text@, separator),
        at <= text@.len(),
{
    let length = text.unicode_len();
    let mut at: usize = 0;
    assert(text@.skip(0) =~= text@);
    while at < length
        invariant
            at <= length,
            length == text@.len(),
            first_index_of(text@, separator) == at + first_index_of(
                text@.skip(at as int),
                separator,
            ),
        decreases length - at,
    {
        if text.get_char(at) == separator {
            assert(text@.skip(at as int)[0] == separator);
            return at;
        }
        assert(text@.skip(at as int).skip(1) =~= text@.skip(at + 1));
        at += 1;
    }
    at
}

/// Splits `text` at its first `separator`: the part before it, and the part
/// after it where there is one.
pub fn split_first<'a>(text: &'a str, separator: char) -> (parts: (&'a str, Option<&'a str>))
    ensures
        parts.0@ == before_first(text@, separator),
        match parts.1 {
            Some(rest) => after_first(text@, separator) == Some(rest@),
            None => after_first(text@, separator) is None,
        },
{
    let length = text.unicode_len();
    let at = find_first(text, separator);
    let head = text.substring_char(0, at);
    assert(text@.subrange(0, at as int) =~= text@.take(at as int));
    if at < length {
        let rest = text.substring_char(at + 1, length);
        assert(text@.subrange(at + 1, length as int) =~= text@.skip(at + 1));
        (head, Some(rest))
    } else {
        (head, None)
    }
}

/// The white space that a text starts with: that many characters of it are
/// white space, and the one after them, if there is one, is not.
proof fn lemma_leading_white_space(text: Seq<char>)
    ensures
        leading_white_space(text) <= text.len(),
        leading_white_space(text) < text.len() ==> !is_white_space(
            text[leading_white_space(text) as int],
        ),
    decreases text.len(),
{
    if text.len() > 0 && is_white_space(text[0]) {
        lemma_leading_white_space(text.skip(1));
    }
}

/// The white space that a text ends with: that many characters of it are
/// white space, and the one before them, if there is one, is not.
proof fn lemma_trailing_white_space(text: Seq<char>)
    ensures
        trailing_white_space(text) <= text.len(),
        trailing_white_space(text) < text.len() ==> !is_white_space(
            text[text.len() - trailing_white_space(text) - 1],
        ),
    decreases text.len(),
{
    if text.len() > 0 && is_white_space(text.last()) {
        lemma_trailing_white_space(text.drop_last());
    }
}

/// A trimmed text neither starts nor ends with white space, so trimming it
/// again changes nothing.
pub proof fn lemma_trimmed_twice(text: Seq<char>)
    ensures
        trimmed(text).len() > 0 ==> !is_white_space(trimmed(text)[0]) && !is_white_space(
            trimmed(text).last(),
        ),
        trimmed(trimmed(text)) == trimmed(text),
{
    lemma_leading_white_space(text);
    let rest = text.skip(leading_white_space(text) as int);
    lemma_trailing_white_space(rest);
    let inner = trimmed(text);
    assert(inner == rest.take(rest.len() - trailing_white_space(rest)));
    if inner.len() > 0 {
        assert(inner[0] == text[leading_white_space(text) as int]);
        assert(inner.last() == rest[rest.len() - trailing_white_space(rest) - 1]);
        assert(leading_white_space(inner) == 0);
        assert(trailing_white_space(inner) == 0);
    }
    assert(inner.skip(0) =~= inner);
    assert(trimmed(inner) =~= inner);
}

} // verus!
