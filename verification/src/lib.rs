//! Lexical classification of single lexemes.
//!
//! Given one already-segmented run of source text, the library decides which
//! token category it belongs to (operator, keyword, identifier, number
//! literal, string literal) and produces a strongly typed token value, or a
//! typed error when no category matches or a committed category is malformed.

pub mod errors;
pub mod text;
pub mod tokens;
