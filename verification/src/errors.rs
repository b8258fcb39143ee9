//! The classification error taxonomy.

use vstd::prelude::*;

verus! {

/// Why a lexeme could not be classified.
///
/// `NotValidToken` means no token category claimed the lexeme at all.
/// While one category is being tried it signals "not this category, try the
/// next"; if it escapes every category it reaches the caller as an
/// unrecognized lexeme.
///
/// `UnterminatedString` means the lexeme committed to the string-literal
/// category (it opens with a quote) but is malformed: the closing quote is
/// missing. It is kept distinct from `NotValidToken` so a caller can report
/// the precise failure instead of a generic unknown token.
#[derive(Debug, Clone, Copy, PartialEq, Eq, Structural)]
pub enum TokenParseError {
    NotValidToken,
    UnterminatedString,
}

} // verus!
