//! Tokenizer and precedence-climbing parser for algebraic expressions.
//!
//! `scan` turns source text into a lookahead-buffered token stream, `parse`
//! builds an `Expr` tree from that stream, and `ast` holds the tree itself.

pub mod ast;
pub mod error;
pub mod parse;
pub mod scan;
pub mod laws;
