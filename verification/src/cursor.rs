//! The forward-only, lookahead-capable view over the token stream.
//!
//! One cursor is created per top-level parse call and is exclusively owned by
//! that call chain. Consumption is monotonic: once a token is consumed it is
//! never revisited, and lookahead via [`Cursor::peek`] never advances the read
//! position. No operation ever rewinds, which is what guarantees the engine a
//! single forward pass over the input.

use crate::error::ParseError;
use crate::token::{Punctuator, Token, TokenKind};
use vstd::prelude::*;

verus! {

/// What [`Cursor::peek`] returns: the token `offset` positions into `ts`, or
/// `AbruptEnd` where the stream ends first.
pub open spec fn spec_peek(ts: Seq<Token>, offset: int) -> Result<Token, ParseError> {
    if 0 <= offset < ts.len() {
        Ok(ts[offset])
    } else {
        Err(ParseError::AbruptEnd)
    }
}

/// What [`Cursor::expect`] does to the front of `ts`: the matching token and a
/// consumption of one, or the exact error, consuming nothing.
pub open spec fn spec_expect(ts: Seq<Token>, p: Punctuator, context: &'static str) -> Result<
    (Token, int),
    ParseError,
> {
    if ts.len() == 0 {
        Err(ParseError::AbruptEnd)
    } else if ts[0].kind == TokenKind::Punctuator(p) {
        Ok((ts[0], 1))
    } else {
        Err(
            ParseError::UnexpectedToken {
                expected: Some(TokenKind::Punctuator(p)),
                found: ts[0],
                context,
            },
        )
    }
}

/// The read position into a buffered token stream.
#[derive(Debug)]
pub struct Cursor {
    tokens: Vec<Token>,
    pos: usize,
}

impl Cursor {
    /// The full underlying token stream, consumed tokens included.
    pub closed spec fn stream(&self) -> Seq<Token> {
        self.tokens@
    }

    /// The current read position into the stream.
    pub closed spec fn position(&self) -> int {
        self.pos as int
    }

    /// The read position never leaves the stream.
    pub open spec fn well_formed(&self) -> bool {
        0 <= self.position() <= self.stream().len()
    }

    /// The tokens not yet consumed.
    pub open spec fn remaining(&self) -> Seq<Token> {
        self.stream().skip(self.position())
    }

    /// Makes a cursor over a fully buffered token stream, positioned at its
    /// start.
    pub fn new(tokens: Vec<Token>) -> (c: Cursor)
        ensures
            c.stream() == tokens@,
            c.position() == 0,
            c.well_formed(),
    {
        Cursor { tokens, pos: 0 }
    }

    /// Returns the token `offset` positions ahead of the read position without
    /// consuming anything, or `AbruptEnd` where the stream ends before that
    /// position. Lookahead is the engine's only disambiguation mechanism.
    pub fn peek(&self, offset: usize) -> (r: Result<Token, ParseError>)
        requires
            self.well_formed(),
        ensures
            r == spec_peek(self.remaining(), offset as int),
    {
        if offset < self.tokens.len() - self.pos {
            Ok(self.tokens[self.pos + offset])
        } else {
            Err(ParseError::AbruptEnd)
        }
    }

    /// Consumes and returns the current token, advancing the read position by
    /// one; `AbruptEnd`, and no movement, where the stream is exhausted.
    pub fn next(&mut self) -> (r: Result<Token, ParseError>)
        requires
            old(self).well_formed(),
        ensures
            final(self).well_formed(),
            final(self).stream() == old(self).stream(),
            (match spec_peek(old(self).remaining(), 0) {
                Ok(t) => r == Ok::<Token, ParseError>(t) && final(self).position() == old(
                    self,
                ).position() + 1,
                Err(e) => r == Err::<Token, ParseError>(e) && final(self).position() == old(
                    self,
                ).position(),
            }),
    {
        if self.pos < self.tokens.len() {
            let t = self.tokens[self.pos];
            self.pos = self.pos + 1;
            Ok(t)
        } else {
            Err(ParseError::AbruptEnd)
        }
    }

    /// Consumes the next token only if it is the punctuator `p`; otherwise
    /// fails with `UnexpectedToken` annotated with `context`, the name of the
    /// syntactic position, and consumes nothing.
    pub fn expect(&mut self, p: Punctuator, context: &'static str) -> (r: Result<
        Token,
        ParseError,
    >)
        requires
            old(self).well_formed(),
        ensures
            final(self).well_formed(),
            final(self).stream() == old(self).stream(),
            (match spec_expect(old(self).remaining(), p, context) {
                Ok((t, n)) => r == Ok::<Token, ParseError>(t) && final(self).position() == old(
                    self,
                ).position() + n,
                Err(e) => r == Err::<Token, ParseError>(e) && final(self).position() == old(
                    self,
                ).position(),
            }),
    {
        let t = match self.peek(0) {
            Ok(t) => t,
            Err(e) => {
                return Err(e);
            },
        };
        if t.kind == TokenKind::Punctuator(p) {
            let _ = self.next();
            Ok(t)
        } else {
            Err(ParseError::UnexpectedToken { expected: Some(TokenKind::Punctuator(p)), found: t, context })
        }
    }
}

} // verus!
