//! Pure byte classifiers: token characters, URL characters, hex digits,
//! and the ASCII predicates the URL sub-machine is built from.

use vstd::prelude::*;

verus! {

/// ASCII lower-case fold: OR with 0x20. Correct for ASCII letters only;
/// callers apply it only to bytes known to be alphabetic or compared
/// against lower-case keyword letters.
pub open spec fn spec_lower(ch: u8) -> u8 {
    ch | 0x20
}

/// Executable form of [`spec_lower`].
pub fn lower(ch: u8) -> (r: u8)
    ensures
        r == spec_lower(ch),
{
    ch | 0x20
}

/// Whether `ch` is an ASCII decimal digit.
pub open spec fn spec_is_num(ch: u8) -> bool {
    ('0' as u8) <= ch && ch <= ('9' as u8)
}

/// Executable form of [`spec_is_num`].
pub fn is_num(ch: u8) -> (r: bool)
    ensures
        r == spec_is_num(ch),
{
    ch >= ('0' as u8) && ch <= ('9' as u8)
}

/// Whether `ch` is an ASCII letter.
pub open spec fn spec_is_alpha(ch: u8) -> bool {
    (('a' as u8) <= ch && ch <= ('z' as u8)) || (('A' as u8) <= ch && ch <= ('Z' as u8))
}

/// Executable form of [`spec_is_alpha`].
pub fn is_alpha(ch: u8) -> (r: bool)
    ensures
        r == spec_is_alpha(ch),
{
    (ch >= ('a' as u8) && ch <= ('z' as u8)) || (ch >= ('A' as u8) && ch <= ('Z' as u8))
}

/// Whether `ch` is an ASCII letter or digit.
pub open spec fn spec_is_alphanum(ch: u8) -> bool {
    spec_is_num(ch) || spec_is_alpha(ch)
}

/// Executable form of [`spec_is_alphanum`].
pub fn is_alphanum(ch: u8) -> (r: bool)
    ensures
        r == spec_is_alphanum(ch),
{
    is_num(ch) || is_alpha(ch)
}

/// Whether `ch` is an RFC 2396 mark character.
pub open spec fn spec_is_mark(ch: u8) -> bool {
    ch == ('-' as u8) || ch == ('_' as u8) || ch == ('.' as u8) || ch == ('!' as u8) || ch == ('~' as u8) || ch == ('*' as u8)
        || ch == ('\'' as u8) || ch == ('(' as u8) || ch == (')' as u8)
}

/// Executable form of [`spec_is_mark`].
pub fn is_mark(ch: u8) -> (r: bool)
    ensures
        r == spec_is_mark(ch),
{
    ch == ('-' as u8) || ch == ('_' as u8) || ch == ('.' as u8) || ch == ('!' as u8) || ch == ('~' as u8) || ch == ('*' as u8)
        || ch == ('\'' as u8) || ch == ('(' as u8) || ch == (')' as u8)
}

/// Whether `ch` may appear in the userinfo part of a URL authority.
pub open spec fn spec_is_userinfo_char(ch: u8) -> bool {
    spec_is_alphanum(ch) || spec_is_mark(ch) || ch == ('%' as u8) || ch == (';' as u8) || ch == (':' as u8)
        || ch == ('&' as u8) || ch == ('=' as u8) || ch == ('+' as u8) || ch == ('$' as u8) || ch == (',' as u8)
}

/// Executable form of [`spec_is_userinfo_char`].
pub fn is_userinfo_char(ch: u8) -> (r: bool)
    ensures
        r == spec_is_userinfo_char(ch),
{
    is_alphanum(ch) || is_mark(ch) || ch == ('%' as u8) || ch == (';' as u8) || ch == (':' as u8) || ch == ('&' as u8)
        || ch == ('=' as u8) || ch == ('+' as u8) || ch == ('$' as u8) || ch == (',' as u8)
}

/// RFC 7230 token character, folded to lower case for letters. In
/// non-strict mode a space is accepted and returned unchanged.
pub open spec fn spec_token(strict: bool, ch: u8) -> Option<u8> {
    if !strict && ch == (' ' as u8) {
        Some((' ' as u8))
    } else if ('a' as u8) <= ch && ch <= ('z' as u8) {
        Some(ch)
    } else if ('A' as u8) <= ch && ch <= ('Z' as u8) {
        Some(ch | 0x20)
    } else if ('0' as u8) <= ch && ch <= ('9' as u8) {
        Some(ch)
    } else if ch == ('!' as u8) || ch == ('#' as u8) || ch == ('$' as u8) || ch == ('%' as u8) || ch == ('&' as u8) || ch == ('\'' as u8)
        || ch == ('*' as u8) || ch == ('+' as u8) || ch == ('-' as u8) || ch == ('.' as u8) || ch == ('^' as u8) || ch == ('_' as u8)
        || ch == ('`' as u8) || ch == ('|' as u8) || ch == ('~' as u8) {
        Some(ch)
    } else {
        None
    }
}

/// Executable form of [`spec_token`].
pub fn token(strict: bool, ch: u8) -> (r: Option<u8>)
    ensures
        r == spec_token(strict, ch),
{
    if !strict && ch == (' ' as u8) {
        Some((' ' as u8))
    } else if ch >= ('a' as u8) && ch <= ('z' as u8) {
        Some(ch)
    } else if ch >= ('A' as u8) && ch <= ('Z' as u8) {
        Some(ch | 0x20)
    } else if ch >= ('0' as u8) && ch <= ('9' as u8) {
        Some(ch)
    } else if ch == ('!' as u8) || ch == ('#' as u8) || ch == ('$' as u8) || ch == ('%' as u8) || ch == ('&' as u8) || ch == ('\'' as u8)
        || ch == ('*' as u8) || ch == ('+' as u8) || ch == ('-' as u8) || ch == ('.' as u8) || ch == ('^' as u8) || ch == ('_' as u8)
        || ch == ('`' as u8) || ch == ('|' as u8) || ch == ('~' as u8) {
        Some(ch)
    } else {
        None
    }
}

/// URL character: every visible ASCII byte except `#` and `?` (which end
/// the path and the query), plus horizontal tab and form feed. In
/// non-strict mode bytes with the high bit set are accepted too.
pub open spec fn spec_is_url_char(strict: bool, ch: u8) -> bool {
    ch == 9 || ch == 12 || (33 <= ch && ch <= 126 && ch != ('#' as u8) && ch != ('?' as u8))
        || (!strict && ch >= 128)
}

/// Executable form of [`spec_is_url_char`].
pub fn is_url_char(strict: bool, ch: u8) -> (r: bool)
    ensures
        r == spec_is_url_char(strict, ch),
{
    ch == 9 || ch == 12 || (ch >= 33 && ch <= 126 && ch != ('#' as u8) && ch != ('?' as u8))
        || (!strict && ch >= 128)
}

/// The value of an ASCII hex digit, or -1 for any other byte.
pub open spec fn spec_unhex(ch: u8) -> i8 {
    if ('0' as u8) <= ch && ch <= ('9' as u8) {
        (ch - ('0' as u8)) as i8
    } else if ('a' as u8) <= ch && ch <= ('f' as u8) {
        (ch - ('a' as u8) + 10) as i8
    } else if ('A' as u8) <= ch && ch <= ('F' as u8) {
        (ch - ('A' as u8) + 10) as i8
    } else {
        -1i8
    }
}

/// Executable form of [`spec_unhex`].
pub fn unhex(ch: u8) -> (r: i8)
    ensures
        r == spec_unhex(ch),
{
    if ch >= ('0' as u8) && ch <= ('9' as u8) {
        (ch - ('0' as u8)) as i8
    } else if ch >= ('a' as u8) && ch <= ('f' as u8) {
        (ch - ('a' as u8) + 10) as i8
    } else if ch >= ('A' as u8) && ch <= ('F' as u8) {
        (ch - ('A' as u8) + 10) as i8
    } else {
        -1
    }
}

} // verus!
