//! Character classification used by the identifier predicates.
//!
//! Identifier rules speak of "alphabetic" over the full character set, which
//! is the Unicode `Alphabetic` property as `char::is_alphabetic` decides it.
//! That property is named by [`unicode_alphabetic`] rather than written out;
//! the ASCII classes the rules also need are spelled out exactly.

use vstd::prelude::*;

verus! {

/// Whether the character lies in the ASCII range.
pub open spec fn is_ascii(c: char) -> bool {
    (c as u32) < 128
}

/// Whether the character is an ASCII letter, `a`..=`z` or `A`..=`Z`.
pub open spec fn is_ascii_letter(c: char) -> bool {
    ('a' as u32 <= c as u32 && c as u32 <= 'z' as u32)
        || ('A' as u32 <= c as u32 && c as u32 <= 'Z' as u32)
}

/// Whether the character is an ASCII decimal digit, `0`..=`9`.
pub open spec fn is_ascii_digit(c: char) -> bool {
    '0' as u32 <= c as u32 && c as u32 <= '9' as u32
}

/// Whether the character has the Unicode `Alphabetic` property.
///
/// The property is decided by `char::is_alphabetic`; its full extent fills
/// Unicode tables, so it is left uninterpreted here and pinned down only where
/// the trusted specification below states its ASCII behaviour.
pub uninterp spec fn unicode_alphabetic(c: char) -> bool;

/// Relies on `char::is_alphabetic`: true exactly for characters with the
/// Unicode `Alphabetic` property, a function of the character alone. Within
/// the ASCII range that property holds of the letters and of no other
/// character (in particular of no digit, nor of `_`, `$`, whitespace or
/// punctuation).
pub assume_specification[ char::is_alphabetic ](c: char) -> (r: bool)
    ensures
        r == unicode_alphabetic(c),
        is_ascii_letter(c) ==> r,
        is_ascii(c) && !is_ascii_letter(c) ==> !r,
;

/// Whether the character is an ASCII decimal digit.
pub fn ascii_digit(c: char) -> (r: bool)
    ensures
        r == is_ascii_digit(c),
{
    let u = c as u32;
    '0' as u32 <= u && u <= '9' as u32
}

} // verus!
