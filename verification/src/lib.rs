//! A recursive-descent grammar engine for the arrow-function body productions
//! of an ECMAScript front end.
//!
//! The engine disambiguates grammar forms with bounded lookahead over a
//! forward-only token cursor, threads grammar-context flags by value through
//! the recursion, and fails closed: a malformed input yields one terminal
//! [`error::ParseError`], never a partial tree.
//!
//! The demonstrated grammar-rule pair is the concise body of an arrow function
//! (block body vs. single-expression body) together with the shared machinery
//! every production uses: the token [`cursor::Cursor`], the context flags of
//! [`context`], the [`parser::TokenParser`] protocol, and the AST shapes of
//! [`node`]. The spec-level meaning of every production lives in [`grammar`];
//! the laws the engine obeys are proved in [`laws`].

pub mod context;
pub mod cursor;
pub mod error;
pub mod grammar;
pub mod laws;
pub mod node;
pub mod parser;
pub mod token;
