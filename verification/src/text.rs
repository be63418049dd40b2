//! Character and string primitives of the standard library that the rest of
//! the crate builds on. Their contracts are taken on trust.

use vstd::prelude::*;

verus! {

/// The answer of `char::is_alphanumeric`: whether `c` has the Unicode
/// property Alphabetic or is in one of the numeric general categories.
pub uninterp spec fn unicode_alphanumeric(c: char) -> bool;

/// The answer of `char::is_uppercase`: whether `c` has the Unicode property
/// Uppercase.
pub uninterp spec fn unicode_uppercase(c: char) -> bool;

/// The answer of `char::is_lowercase`: whether `c` has the Unicode property
/// Lowercase.
pub uninterp spec fn unicode_lowercase(c: char) -> bool;

/// `c` with the ASCII letters `A` to `Z` mapped to `a` to `z`, and every other
/// character unchanged.
pub open spec fn ascii_lowercase(c: char) -> char {
    if 'A' <= c && c <= 'Z' {
        ((c as u8) + 32) as char
    } else {
        c
    }
}

/// Calls `char::is_alphanumeric`. Trusted: the result is the Unicode
/// classification, which is a function of the character alone.
#[verifier::external_body]
pub(crate) fn is_alphanumeric(c: char) -> (b: bool)
    ensures
        b == unicode_alphanumeric(c),
{
    c.is_alphanumeric()
}

/// Calls `char::is_uppercase`. Trusted: the result is the Unicode
/// classification, which is a function of the character alone.
#[verifier::external_body]
pub(crate) fn is_uppercase(c: char) -> (b: bool)
    ensures
        b == unicode_uppercase(c),
{
    c.is_uppercase()
}

/// Calls `char::is_lowercase`. Trusted: the result is the Unicode
/// classification, which is a function of the character alone.
#[verifier::external_body]
pub(crate) fn is_lowercase(c: char) -> (b: bool)
    ensures
        b == unicode_lowercase(c),
{
    c.is_lowercase()
}

/// Calls `char::to_ascii_lowercase`. Trusted: ASCII capitals are mapped to
/// their lower-case letters and nothing else changes.
#[verifier::external_body]
pub(crate) fn to_ascii_lowercase(c: char) -> (r: char)
    ensures
        r == ascii_lowercase(c),
{
    c.to_ascii_lowercase()
}

/// Calls `String::push`. Trusted: the character is appended at the end.
#[verifier::external_body]
pub(crate) fn push_char(s: &mut String, c: char)
    ensures
        final(s)@ == old(s)@.push(c),
{
    s.push(c)
}

/// Whether `pattern` occurs in `text` as a run of consecutive characters.
pub open spec fn has_infix(text: Seq<char>, pattern: Seq<char>) -> bool {
    exists|i: int|
        0 <= i && i + pattern.len() <= text.len() && #[trigger] text.subrange(
            i,
            i + pattern.len(),
        ) == pattern
}

/// Calls `str::contains` with a string pattern. Trusted: the answer is
/// whether the pattern occurs in the text.
#[verifier::external_body]
pub(crate) fn contains(text: &str, pattern: &str) -> (found: bool)
    ensures
        found == has_infix(text@, pattern@),
{
    text.contains(pattern)
}

} // verus!
