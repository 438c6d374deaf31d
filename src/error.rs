//! Errors of scanning and parsing.

use vstd::prelude::*;

use crate::scan::TokenKind;

verus! {

/// What can go wrong while scanning or parsing.
#[derive(Debug, Clone, Copy, PartialEq, Eq, Structural)]
pub enum ParseError {
    /// A lexeme that is not valid text. Lexemes are kept as the raw bytes of
    /// the source, so the scanner itself never reports this.
    InvalidEncoding,
    /// An integer numeral whose value exceeds `u64`.
    InvalidNumeral,
    /// A token of a required kind (chiefly `)`) was missing.
    UnexpectedToken { expected: TokenKind, found: TokenKind },
    /// A lead token that starts no supported construct (an infix operator,
    /// a builtin function name, a special variable, the end of input).
    UnsupportedConstruct,
}

} // verus!
