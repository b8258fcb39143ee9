//! Character classes and plain string comparison.
//!
//! The identifier rule needs Unicode letter and digit classes. Inside the
//! ASCII range those classes are fixed ranges; outside it they are given by
//! Unicode tables, which stand behind the two uninterpreted names below and
//! are consulted only through the trusted wrappers around `char`'s own
//! classification methods.

use vstd::prelude::*;

verus! {

/// Whether a character above the ASCII range is a Unicode letter.
pub uninterp spec fn unicode_alphabetic(c: char) -> bool;

/// Whether a character above the ASCII range is a Unicode numeric character.
pub uninterp spec fn unicode_numeric(c: char) -> bool;

/// The letter class of the identifier rule: ASCII letters, and above the
/// ASCII range whatever Unicode counts as a letter.
pub open spec fn is_alpha_char(c: char) -> bool {
    ||| ('a' <= c && c <= 'z')
    ||| ('A' <= c && c <= 'Z')
    ||| (c as u32 > 127 && unicode_alphabetic(c))
}

/// The numeric class matching `char::is_numeric`: ASCII digits, and above
/// the ASCII range whatever Unicode counts as numeric.
pub open spec fn is_numeric_char(c: char) -> bool {
    ||| ('0' <= c && c <= '9')
    ||| (c as u32 > 127 && unicode_numeric(c))
}

/// The alphanumeric class of the identifier rule: a letter or a numeric
/// character.
pub open spec fn is_alnum_char(c: char) -> bool {
    is_alpha_char(c) || is_numeric_char(c)
}

/// An ASCII decimal digit, the only digit form the number rule accepts.
pub open spec fn is_digit_char(c: char) -> bool {
    '0' <= c && c <= '9'
}

/// Relies on char::is_alphabetic: true exactly for Unicode letters; within
/// the ASCII range those are 'a'..='z' and 'A'..='Z'. The result depends on
/// the character alone.
#[verifier::external_body]
pub(crate) fn char_is_alphabetic(c: char) -> (r: bool)
    ensures
        r == is_alpha_char(c),
        (c as u32 <= 127) ==> (r == (('a' <= c && c <= 'z') || ('A' <= c && c <= 'Z'))),
        (c as u32 > 127) ==> (r == unicode_alphabetic(c)),
{
    c.is_alphabetic()
}

/// Relies on char::is_alphanumeric, documented as is_alphabetic or
/// is_numeric: within the ASCII range letters and '0'..='9', above it the
/// Unicode letter and numeric classes. The result depends on the character
/// alone.
#[verifier::external_body]
pub(crate) fn char_is_alphanumeric(c: char) -> (r: bool)
    ensures
        r == is_alnum_char(c),
        (c as u32 <= 127) ==> (r == (('a' <= c && c <= 'z') || ('A' <= c && c <= 'Z') || (
        '0' <= c && c <= '9'))),
        (c as u32 > 127) ==> (r == (unicode_alphabetic(c) || unicode_numeric(c))),
{
    c.is_alphanumeric()
}

/// Character-wise string equality: true exactly when the two slices hold the
/// same sequence of characters.
pub fn str_eq(a: &str, b: &str) -> (r: bool)
    ensures
        r == (a@ == b@),
{
    let n = a.unicode_len();
    if n != b.unicode_len() {
        return false;
    }
    let mut i: usize = 0;
    while i < n
        invariant
            n == a@.len(),
            n == b@.len(),
            i <= n,
            forall|j: int| 0 <= j < i ==> a@[j] == b@[j],
        decreases n - i,
    {
        if a.get_char(i) != b.get_char(i) {
            return false;
        }
        i += 1;
    }
    proof {
        assert(a@ =~= b@);
    }
    true
}

} // verus!
