//! The mathematical meaning of every production in this slice.
//!
//! Each function here maps the tokens remaining in front of a production to
//! the node that production emits and the exact number of tokens it consumes,
//! or to the exact error it fails with. The executable productions in
//! [`crate::parser`] are proved to return precisely these outcomes, so these
//! functions are the single place the grammar of the slice is written down.
//!
//! The grammar, with the formal grammar's bracketed context parameters:
//!
//! ```text
//! ConciseBody[In, Async]   := "{" FunctionBody[~Yield, Async] "}"
//!                           | ExpressionBody[In, Async]          (lookahead != "{")
//! ExpressionBody[In, Await] := AssignmentExpression[In, ~Yield, Await]
//! FunctionBody              := Statement*                        (up to "}" or the stream's end)
//! Statement                 := "return" ";" | "return" AssignmentExpression[+In] ";"
//! AssignmentExpression[In]  := Primary (("+" | "in" if In) Primary)*
//! Primary                   := Identifier | NumericLiteral
//! ```
//!
//! The wider engine adds many more statement and expression forms; the shapes
//! above are the minimal ones that let the two demonstrated productions
//! compose. Neither the yield flag nor the await flag gates any form of this
//! slice, so they are threaded by the executable productions but do not appear
//! here.

use crate::cursor::spec_expect;
use crate::error::ParseError;
use crate::node::Node;
use crate::token::{Keyword, Punctuator, Token, TokenKind};
use vstd::prelude::*;

verus! {

/// The outcome of a production on a token sequence: the parsed value and the
/// number of tokens consumed, or the exact error.
pub type SpecParsed<T> = Result<(T, int), ParseError>;

/// A primary expression: an identifier or an integer literal, one token.
pub open spec fn parse_primary(ts: Seq<Token>) -> SpecParsed<Node> {
    if ts.len() == 0 {
        Err(ParseError::AbruptEnd)
    } else {
        match ts[0].kind {
            TokenKind::Identifier(sym) => Ok((Node::Identifier(sym), 1)),
            TokenKind::NumericLiteral(v) => Ok((Node::Const(v), 1)),
            _ => Err(
                ParseError::UnexpectedToken {
                    expected: None,
                    found: ts[0],
                    context: "primary expression",
                },
            ),
        }
    }
}

/// Whether `t` continues an operator chain under the given allow-in flag.
pub open spec fn chain_operator(t: Token, allow_in: bool) -> bool {
    t.kind == TokenKind::Punctuator(Punctuator::Add) || (allow_in && t.kind == TokenKind::Keyword(
        Keyword::In,
    ))
}

/// The node an operator token builds from its two operands.
pub open spec fn combine(op: Token, left: Node, right: Node) -> Node {
    if op.kind == TokenKind::Punctuator(Punctuator::Add) {
        Node::Add(Box::new(left), Box::new(right))
    } else {
        Node::In(Box::new(left), Box::new(right))
    }
}

/// The left-associative operator chain that may follow a primary expression:
/// zero or more `+`-or-`in` operators, each followed by a primary expression.
pub open spec fn parse_operator_tail(ts: Seq<Token>, left: Node, allow_in: bool) -> SpecParsed<
    Node,
>
    decreases ts.len(),
{
    if ts.len() == 0 || !chain_operator(ts[0], allow_in) {
        Ok((left, 0))
    } else {
        match parse_primary(ts.skip(1)) {
            Ok((right, n)) => match parse_operator_tail(
                ts.skip(1 + n),
                combine(ts[0], left, right),
                allow_in,
            ) {
                Ok((node, m)) => Ok((node, 1 + n + m)),
                Err(e) => Err(e),
            },
            Err(e) => Err(e),
        }
    }
}

/// An assignment expression: a primary expression and its operator chain. The
/// allow-in flag decides whether `in` may stand in the chain.
pub open spec fn parse_assignment(ts: Seq<Token>, allow_in: bool) -> SpecParsed<Node> {
    match parse_primary(ts) {
        Ok((left, n)) => match parse_operator_tail(ts.skip(n), left, allow_in) {
            Ok((node, m)) => Ok((node, n + m)),
            Err(e) => Err(e),
        },
        Err(e) => Err(e),
    }
}

/// An expression body: exactly an assignment expression under the inherited
/// allow-in flag, with the yield context pinned to "not permitted".
pub open spec fn parse_expression_body(ts: Seq<Token>, allow_in: bool) -> SpecParsed<Node> {
    parse_assignment(ts, allow_in)
}

/// One statement. This slice's statement form is the `return` statement, with
/// or without a returned expression; the expression is parsed under `[+In]`.
pub open spec fn parse_statement(ts: Seq<Token>) -> SpecParsed<Node> {
    if ts.len() == 0 {
        Err(ParseError::AbruptEnd)
    } else if ts[0].kind != TokenKind::Keyword(Keyword::Return) {
        Err(
            ParseError::UnexpectedToken {
                expected: Some(TokenKind::Keyword(Keyword::Return)),
                found: ts[0],
                context: "statement",
            },
        )
    } else {
        let rest = ts.skip(1);
        if rest.len() > 0 && rest[0].kind == TokenKind::Punctuator(Punctuator::Semicolon) {
            Ok((Node::Return(None, None), 2))
        } else {
            match parse_assignment(rest, true) {
                Ok((expr, n)) => match spec_expect(
                    rest.skip(n),
                    Punctuator::Semicolon,
                    "return statement",
                ) {
                    Ok((_, _)) => Ok((Node::Return(Some(Box::new(expr)), None), 1 + n + 1)),
                    Err(e) => Err(e),
                },
                Err(e) => Err(e),
            }
        }
    }
}

/// On success, the operator chain consumes at most the tokens in front of it.
pub proof fn lemma_operator_tail_consumed(ts: Seq<Token>, left: Node, allow_in: bool)
    ensures
        parse_operator_tail(ts, left, allow_in) matches Ok((node, m)) ==> 0 <= m <= ts.len(),
    decreases ts.len(),
{
    if ts.len() == 0 || !chain_operator(ts[0], allow_in) {
    } else {
        match parse_primary(ts.skip(1)) {
            Ok((right, n)) => {
                lemma_operator_tail_consumed(ts.skip(1 + n), combine(ts[0], left, right), allow_in);
            },
            Err(_) => {},
        }
    }
}

/// On success, an assignment expression consumes at least one token and at
/// most the tokens in front of it.
pub proof fn lemma_assignment_consumed(ts: Seq<Token>, allow_in: bool)
    ensures
        parse_assignment(ts, allow_in) matches Ok((node, n)) ==> 1 <= n <= ts.len(),
{
    match parse_primary(ts) {
        Ok((left, n)) => {
            lemma_operator_tail_consumed(ts.skip(n), left, allow_in);
        },
        Err(_) => {},
    }
}

/// On success, a statement consumes at least two tokens and at most the tokens
/// in front of it.
pub proof fn lemma_statement_consumed(ts: Seq<Token>)
    ensures
        parse_statement(ts) matches Ok((node, n)) ==> 2 <= n <= ts.len(),
{
    if ts.len() > 0 && ts[0].kind == TokenKind::Keyword(Keyword::Return) {
        lemma_assignment_consumed(ts.skip(1), true);
    }
}

/// A function body: statements up to, and not including, a close-block
/// punctuator or the stream's end.
pub open spec fn parse_statement_list(ts: Seq<Token>) -> SpecParsed<Seq<Node>>
    decreases ts.len(),
    via parse_statement_list_decreases
{
    if ts.len() == 0 || ts[0].kind == TokenKind::Punctuator(Punctuator::CloseBlock) {
        Ok((Seq::empty(), 0))
    } else {
        match parse_statement(ts) {
            Ok((stmt, n)) => match parse_statement_list(ts.skip(n)) {
                Ok((rest, m)) => Ok((seq![stmt] + rest, n + m)),
                Err(e) => Err(e),
            },
            Err(e) => Err(e),
        }
    }
}

#[via_fn]
proof fn parse_statement_list_decreases(ts: Seq<Token>) {
    lemma_statement_consumed(ts);
}

/// On success, a statement list consumes at most the tokens in front of it.
pub proof fn lemma_statement_list_consumed(ts: Seq<Token>)
    ensures
        parse_statement_list(ts) matches Ok((stmts, n)) ==> 0 <= n <= ts.len(),
    decreases ts.len(),
{
    if ts.len() == 0 || ts[0].kind == TokenKind::Punctuator(Punctuator::CloseBlock) {
    } else {
        match parse_statement(ts) {
            Ok((stmt, n)) => {
                lemma_statement_consumed(ts);
                lemma_statement_list_consumed(ts.skip(n));
            },
            Err(_) => {},
        }
    }
}

/// The diagnostic label the concise-body production hands to the close-block
/// check: the async form differs from the non-async form in this label and in
/// nothing else.
pub open spec fn concise_body_context(is_async: bool) -> &'static str {
    if is_async {
        "async concise body"
    } else {
        "concise body"
    }
}

/// A concise body. One token of lookahead picks the branch: an open-block
/// punctuator starts a block body (a function body between braces), anything
/// else is a single-expression body whose node is wrapped as the sole
/// expression of an implicit, label-less `return` statement.
pub open spec fn parse_concise_body(ts: Seq<Token>, allow_in: bool, is_async: bool) -> SpecParsed<
    Seq<Node>,
> {
    if ts.len() == 0 {
        Err(ParseError::AbruptEnd)
    } else if ts[0].kind == TokenKind::Punctuator(Punctuator::OpenBlock) {
        match parse_statement_list(ts.skip(1)) {
            Ok((stmts, n)) => match spec_expect(
                ts.skip(1 + n),
                Punctuator::CloseBlock,
                concise_body_context(is_async),
            ) {
                Ok((_, _)) => Ok((stmts, 1 + n + 1)),
                Err(e) => Err(e),
            },
            Err(e) => Err(e),
        }
    } else {
        match parse_expression_body(ts, allow_in) {
            Ok((expr, n)) => Ok((seq![Node::Return(Some(Box::new(expr)), None)], n)),
            Err(e) => Err(e),
        }
    }
}

/// On success, a concise body consumes at least one token and at most the
/// tokens in front of it.
pub proof fn lemma_concise_body_consumed(ts: Seq<Token>, allow_in: bool, is_async: bool)
    ensures
        parse_concise_body(ts, allow_in, is_async) matches Ok((stmts, n)) ==> 1 <= n <= ts.len(),
{
    if ts.len() > 0 && ts[0].kind == TokenKind::Punctuator(Punctuator::OpenBlock) {
        lemma_statement_list_consumed(ts.skip(1));
    } else {
        lemma_assignment_consumed(ts, allow_in);
    }
}

} // verus!
