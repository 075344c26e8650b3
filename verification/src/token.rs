//! Tokens as the lexer hands them to the parser.
//!
//! A token is an immutable unit with a kind and a source position. The lexer
//! (an external collaborator of this engine) interns identifier names to
//! symbol ids and reads integer literals to their value, so a token is a small
//! copyable value and the parser never touches raw source text.

use vstd::prelude::*;

verus! {

/// A source position: 1-based line and column, as the lexer reports them.
#[derive(Debug, Clone, Copy, PartialEq, Eq, Structural)]
pub struct Position {
    pub line: u32,
    pub column: u32,
}

/// The punctuators this grammar slice distinguishes.
#[derive(Debug, Clone, Copy, PartialEq, Eq, Structural)]
pub enum Punctuator {
    /// `{`
    OpenBlock,
    /// `}`
    CloseBlock,
    /// `;`
    Semicolon,
    /// `+`
    Add,
}

/// The keywords this grammar slice distinguishes.
#[derive(Debug, Clone, Copy, PartialEq, Eq, Structural)]
pub enum Keyword {
    /// `return`
    Return,
    /// `in`, the relational operator gated by the allow-in context flag.
    In,
}

/// The kind of a token. Identifiers carry the symbol id the lexer interned
/// their name to; numeric literals carry their integer value.
#[derive(Debug, Clone, Copy, PartialEq, Eq, Structural)]
pub enum TokenKind {
    Punctuator(Punctuator),
    Keyword(Keyword),
    Identifier(u32),
    NumericLiteral(u64),
}

/// One token of the input stream: a kind and the position it was read at.
#[derive(Debug, Clone, Copy, PartialEq, Eq, Structural)]
pub struct Token {
    pub kind: TokenKind,
    pub pos: Position,
}

} // verus!
