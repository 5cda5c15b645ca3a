//! Character classes used by the scanner, and a small trusted helper for
//! growing a `String` one character at a time.

use vstd::prelude::*;

verus! {

/// An ASCII decimal digit, the only characters that may start a number.
pub open spec fn is_digit_char(c: char) -> bool {
    '0' <= c && c <= '9'
}

/// The characters a number scan consumes: digits and dots, permissively.
pub open spec fn is_digit_or_dot_char(c: char) -> bool {
    c == '.' || is_digit_char(c)
}

/// What `char::is_alphanumeric` returns; the Unicode tables behind it are
/// not restated here, only named.
pub uninterp spec fn is_unicode_alphanumeric(c: char) -> bool;

/// A character that may appear in an identifier or keyword.
pub open spec fn is_word_char(c: char) -> bool {
    is_unicode_alphanumeric(c) || c == '_'
}

/// Whitespace the scanner discards; `'\n'` also advances the line counter.
pub open spec fn is_space_char(c: char) -> bool {
    c == ' ' || c == '\t' || c == '\r' || c == '\n'
}

/// Relies on `char::is_alphanumeric`: a pure classification of the
/// character alone, here only given a name.
pub assume_specification[ char::is_alphanumeric ](c: char) -> (r: bool)
    ensures
        r == is_unicode_alphanumeric(c),
;

pub fn is_digit(c: char) -> (r: bool)
    ensures
        r == is_digit_char(c),
{
    '0' <= c && c <= '9'
}

pub fn is_digit_or_dot(c: char) -> (r: bool)
    ensures
        r == is_digit_or_dot_char(c),
{
    c == '.' || is_digit(c)
}

/// Relies on `String::push`: appends the given character to the end of the
/// string.
#[verifier::external_body]
pub fn push_char(s: &mut String, c: char)
    ensures
        final(s)@ == old(s)@ + seq![c],
{
    s.push(c)
}

} // verus!
