//! The closed set of parse-failure kinds.
//!
//! Failures propagate verbatim up the production call chain; no production
//! recovers from a sub-production's failure, and no AST node is produced
//! alongside an error.

use crate::token::{Token, TokenKind};
use vstd::prelude::*;

verus! {

/// A parse failure. Immutable; carries no recovery state.
#[derive(Debug, Clone, Copy, PartialEq, Eq)]
pub enum ParseError {
    /// The token stream ended where a token was mandatory.
    AbruptEnd,
    /// A required token kind was not found. `expected` names the kind the
    /// grammar required (`None` where several kinds would have done), `found`
    /// is the offending token, and `context` names the syntactic position for
    /// diagnostics.
    UnexpectedToken { expected: Option<TokenKind>, found: Token, context: &'static str },
}

/// Whether two errors agree on everything but the diagnostic context label.
pub open spec fn same_error_ignoring_context(e1: ParseError, e2: ParseError) -> bool {
    match (e1, e2) {
        (ParseError::AbruptEnd, ParseError::AbruptEnd) => true,
        (
            ParseError::UnexpectedToken { expected: x1, found: f1, context: _ },
            ParseError::UnexpectedToken { expected: x2, found: f2, context: _ },
        ) => x1 == x2 && f1 == f2,
        _ => false,
    }
}

} // verus!
