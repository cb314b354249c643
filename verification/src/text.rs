//! Text handling that the protocol and the command handlers rely on.

use std::str::Utf8Error;
use vstd::prelude::*;
use vstd::utf8::{decode_utf8, valid_utf8};

verus! {

/// `std::str::from_utf8`: succeeds exactly on valid UTF-8, and then the text
/// is the decoded characters. On failure the error value is std's and nothing
/// is stated of it.
#[verifier::external_body]
pub(crate) fn str_from_utf8(v: &[u8]) -> (r: Result<&str, Utf8Error>)
    ensures
        r is Ok <==> valid_utf8(v@),
        r matches Ok(s) ==> s@ == decode_utf8(v@),
{
    std::str::from_utf8(v)
}

} // verus!

verus! {

/// What `str::to_uppercase` gives for a text: each character mapped by the
/// Unicode uppercase mapping.
pub uninterp spec fn uppercase(s: Seq<char>) -> Seq<char>;

/// The uppercase of an ASCII letter, and any other character unchanged.
pub open spec fn ascii_upper(c: char) -> char {
    if 'a' <= c && c <= 'z' {
        ((c as u32) - 32) as char
    } else {
        c
    }
}

/// Whether every character of a text is ASCII.
pub open spec fn is_ascii_text(s: Seq<char>) -> bool {
    forall|i: int| 0 <= i < s.len() ==> (s[i] as u32) < 128
}

/// The lowercase of an ASCII letter, and any other character unchanged.
pub open spec fn ascii_lower(c: char) -> char {
    if 'A' <= c && c <= 'Z' {
        ((c as u32) + 32) as char
    } else {
        c
    }
}

/// A text with each ASCII letter in lower case.
pub open spec fn ascii_lower_text(s: Seq<char>) -> Seq<char> {
    s.map_values(|c: char| ascii_lower(c))
}

/// A text with each ASCII letter in upper case.
pub open spec fn ascii_upper_text(s: Seq<char>) -> Seq<char> {
    s.map_values(|c: char| ascii_upper(c))
}

/// `str::to_uppercase`. Its result is named by `uppercase`; for a text that
/// is all ASCII, the documentation of the Unicode mapping gives the ASCII
/// case mapping, which is stated too. Nothing more is stated of non-ASCII
/// text.
#[verifier::external_body]
pub(crate) fn str_to_uppercase(s: &str) -> (r: String)
    ensures
        r@ == uppercase(s@),
        is_ascii_text(s@) ==> r@ == ascii_upper_text(s@),
{
    s.to_uppercase()
}

/// `==` on `str`: the two texts hold the same characters.
#[verifier::external_body]
pub(crate) fn str_eq(a: &str, b: &str) -> (r: bool)
    ensures
        r == (a@ == b@),
{
    a == b
}

} // verus!

verus! {

/// `bstr::ByteSlice::to_str`: the bytes as text when they are valid UTF-8,
/// and `None` in place of bstr's error otherwise.
#[verifier::external_body]
pub(crate) fn bytes_to_str(b: &[u8]) -> (r: Option<&str>)
    ensures
        r is Some <==> valid_utf8(b@),
        r matches Some(s) ==> s@ == decode_utf8(b@),
{
    bstr::ByteSlice::to_str(b).ok()
}

/// `bstr::ByteSlice::to_str_lossy`: valid UTF-8 is decoded as it is, and
/// every invalid sequence is replaced by U+FFFD, so that the text of invalid
/// bytes holds at least one U+FFFD. Where the replacements stand is not
/// stated.
#[verifier::external_body]
pub(crate) fn bytes_to_str_lossy(b: &[u8]) -> (r: String)
    ensures
        valid_utf8(b@) ==> r@ == decode_utf8(b@),
        !valid_utf8(b@) ==> r@.contains('\u{FFFD}'),
{
    bstr::ByteSlice::to_str_lossy(b).into_owned()
}

/// Whether a character is an ASCII decimal digit.
pub open spec fn is_digit(c: char) -> bool {
    '0' <= c && c <= '9'
}

/// A nonempty run of decimal digits.
pub open spec fn all_digits(s: Seq<char>) -> bool {
    s.len() > 0 && forall|i: int| 0 <= i < s.len() ==> is_digit(#[trigger] s[i])
}

/// The value of a run of decimal digits, most significant first.
pub open spec fn digits_value(s: Seq<char>) -> int
    decreases s.len(),
{
    if s.len() == 0 {
        0
    } else {
        digits_value(s.drop_last()) * 10 + (s.last() as int - '0' as int)
    }
}

/// The value of a text that is an optional `+` followed by decimal digits.
pub open spec fn spec_parse_unsigned(s: Seq<char>) -> Option<int> {
    if s.len() > 0 && s[0] == '+' {
        if all_digits(s.drop_first()) {
            Some(digits_value(s.drop_first()))
        } else {
            None
        }
    } else if all_digits(s) {
        Some(digits_value(s))
    } else {
        None
    }
}

/// The value of a text that is an optional `+` or `-` followed by decimal
/// digits.
pub open spec fn spec_parse_signed(s: Seq<char>) -> Option<int> {
    if s.len() > 0 && s[0] == '-' {
        if all_digits(s.drop_first()) {
            Some(-digits_value(s.drop_first()))
        } else {
            None
        }
    } else {
        spec_parse_unsigned(s)
    }
}

/// `str::parse::<u8>`: as its documentation states, an optional `+` followed
/// by digits, of a value that fits the type; anything else, including
/// whitespace and an empty text, is an error.
#[verifier::external_body]
pub(crate) fn parse_u8(s: &str) -> (r: Option<u8>)
    ensures
        r == (match spec_parse_unsigned(s@) {
            Some(v) => if v <= u8::MAX {
                Some(v as u8)
            } else {
                None::<u8>
            },
            None => None,
        }),
{
    s.parse::<u8>().ok()
}

/// `str::parse::<u32>`, as `parse_u8` but for `u32`.
#[verifier::external_body]
pub(crate) fn parse_u32(s: &str) -> (r: Option<u32>)
    ensures
        r == (match spec_parse_unsigned(s@) {
            Some(v) => if v <= u32::MAX {
                Some(v as u32)
            } else {
                None::<u32>
            },
            None => None,
        }),
{
    s.parse::<u32>().ok()
}

/// `str::parse::<i32>`: an optional `+` or `-` followed by digits, of a value
/// that fits the type.
#[verifier::external_body]
pub(crate) fn parse_i32(s: &str) -> (r: Option<i32>)
    ensures
        r == (match spec_parse_signed(s@) {
            Some(v) => if i32::MIN <= v <= i32::MAX {
                Some(v as i32)
            } else {
                None::<i32>
            },
            None => None,
        }),
{
    s.parse::<i32>().ok()
}

/// A run of digits has a nonnegative value.
pub proof fn lemma_digits_value_nonneg(s: Seq<char>)
    requires
        forall|i: int| 0 <= i < s.len() ==> is_digit(#[trigger] s[i]),
    ensures
        digits_value(s) >= 0,
    decreases s.len(),
{
    if s.len() > 0 {
        lemma_digits_value_nonneg(s.drop_last());
    }
}

/// Text that holds a U+FFFD is no number.
pub proof fn lemma_replacement_is_no_number(s: Seq<char>)
    requires
        s.contains('\u{FFFD}'),
    ensures
        spec_parse_unsigned(s) is None,
        spec_parse_signed(s) is None,
{
    let i = choose|i: int| 0 <= i < s.len() && s[i] == '\u{FFFD}';
    assert(!is_digit(s[i]));
    if s.len() > 0 && (s[0] == '+' || s[0] == '-') {
        assert(i > 0);
        assert(s.drop_first()[i - 1] == s[i]);
    }
}

} // verus!
