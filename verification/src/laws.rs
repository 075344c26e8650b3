//! The laws the engine obeys, stated over the grammar model of
//! [`crate::grammar`] and proved by Verus.
//!
//! Every executable production is bound by [`crate::parser::TokenParser`]'s
//! contract to return exactly what the grammar model says on the tokens in
//! front of the cursor, so each law proved here of the model holds of the
//! executable engine as well.

use crate::cursor::{spec_peek, Cursor};
use crate::error::{same_error_ignoring_context, ParseError};
use crate::grammar::{
    concise_body_context, lemma_statement_list_consumed, parse_concise_body, parse_expression_body,
    parse_statement_list,
};
use crate::node::Node;
use crate::token::{Punctuator, Token, TokenKind};
use vstd::prelude::*;

verus! {

/// Branch determinism: whenever the next token is the open-block punctuator,
/// a successful concise body is exactly the parsed inner statement list — no
/// implicit wrapping — and what is consumed is exactly the open-block token,
/// the inner body's own consumption, and one close-block token, which is the
/// last token consumed.
pub proof fn lemma_branch_determinism(ts: Seq<Token>, allow_in: bool, is_async: bool)
    requires
        ts.len() > 0,
        ts[0].kind == TokenKind::Punctuator(Punctuator::OpenBlock),
    ensures
        parse_concise_body(ts, allow_in, is_async) matches Ok((stmts, n)) ==> {
            &&& parse_statement_list(ts.skip(1)) == Ok::<(Seq<Node>, int), ParseError>(
                (stmts, n - 2),
            )
            &&& 2 <= n <= ts.len()
            &&& ts[n - 1].kind == TokenKind::Punctuator(Punctuator::CloseBlock)
        },
{
    lemma_statement_list_consumed(ts.skip(1));
}

/// Implicit-return wrapping: whenever the next token is not the open-block
/// punctuator, the concise body is decided entirely by the expression body —
/// on success a singleton statement list holding one label-less `Return` node
/// that wraps exactly the expression body's node, consuming exactly what the
/// expression body consumed; on failure, exactly the expression body's error.
pub proof fn lemma_implicit_return_wrapping(ts: Seq<Token>, allow_in: bool, is_async: bool)
    requires
        ts.len() > 0,
        ts[0].kind != TokenKind::Punctuator(Punctuator::OpenBlock),
    ensures
        (match parse_expression_body(ts, allow_in) {
            Ok((expr, n)) => parse_concise_body(ts, allow_in, is_async) == Ok::<
                (Seq<Node>, int),
                ParseError,
            >((seq![Node::Return(Some(Box::new(expr)), None)], n)),
            Err(e) => parse_concise_body(ts, allow_in, is_async) == Err::<
                (Seq<Node>, int),
                ParseError,
            >(e),
        }),
{
}

/// No backtracking: the outcome of a concise body is one deterministic
/// function of the token sequence and the context flags, and the branch is
/// committed by one token of lookahead — on an open-block token the outcome is
/// the block branch's, on anything else the expression branch's, and the other
/// branch's outcome never enters into it. Together with
/// [`crate::parser::TokenParser`]'s contract, which pins every executable
/// production to this function of the tokens in front of the cursor, parsing
/// the same input twice under the same context yields identical results.
pub proof fn lemma_no_backtracking(ts: Seq<Token>, allow_in: bool, is_async: bool)
    ensures
        ts.len() == 0 ==> parse_concise_body(ts, allow_in, is_async) == Err::<
            (Seq<Node>, int),
            ParseError,
        >(ParseError::AbruptEnd),
        ts.len() > 0 && ts[0].kind == TokenKind::Punctuator(Punctuator::OpenBlock)
            ==> parse_concise_body(ts, allow_in, is_async) == block_branch(ts, is_async),
        ts.len() > 0 && ts[0].kind != TokenKind::Punctuator(Punctuator::OpenBlock)
            ==> parse_concise_body(ts, allow_in, is_async) == expression_branch(ts, allow_in),
{
}

/// The block branch of a concise body, on its own: the inner statement list
/// between the branch token and a mandatory close-block punctuator.
pub open spec fn block_branch(ts: Seq<Token>, is_async: bool) -> Result<
    (Seq<Node>, int),
    ParseError,
> {
    match parse_statement_list(ts.skip(1)) {
        Ok((stmts, n)) => match crate::cursor::spec_expect(
            ts.skip(1 + n),
            Punctuator::CloseBlock,
            concise_body_context(is_async),
        ) {
            Ok((_, _)) => Ok((stmts, 1 + n + 1)),
            Err(e) => Err(e),
        },
        Err(e) => Err(e),
    }
}

/// The expression branch of a concise body, on its own: the expression body's
/// node wrapped in an implicit `Return`.
pub open spec fn expression_branch(ts: Seq<Token>, allow_in: bool) -> Result<
    (Seq<Node>, int),
    ParseError,
> {
    match parse_expression_body(ts, allow_in) {
        Ok((expr, n)) => Ok((seq![Node::Return(Some(Box::new(expr)), None)], n)),
        Err(e) => Err(e),
    }
}

/// Context forwarding: the async flag handed to the concise-body production
/// never changes the shape of what is parsed — the async and the non-async
/// form agree on success, value for value and token for token, and agree on
/// failure up to the diagnostic context label. The label attached at the
/// close-block check is the only place the flag shows: "async concise body"
/// for the async form, "concise body" for the other.
pub proof fn lemma_context_forwarding(ts: Seq<Token>, allow_in: bool)
    ensures
        (match (parse_concise_body(ts, allow_in, true), parse_concise_body(ts, allow_in, false)) {
            (Ok(a), Ok(b)) => a == b,
            (Err(ea), Err(eb)) => same_error_ignoring_context(ea, eb),
            _ => false,
        }),
        concise_body_context(true)@ == "async concise body"@,
        concise_body_context(false)@ == "concise body"@,
{
}

/// Cursor lookahead purity: peeking cannot move the cursor, so two consecutive
/// `peek` calls at the same offset, with no intervening `next`, return
/// identical tokens and leave the read position — indeed the whole cursor —
/// unchanged. Verus proves this of the executable calls themselves.
pub fn lookahead_purity(cursor: &mut Cursor, offset: usize) -> (pair: (
    Result<Token, ParseError>,
    Result<Token, ParseError>,
))
    requires
        old(cursor).well_formed(),
    ensures
        *final(cursor) == *old(cursor),
        pair.0 == pair.1,
        pair.0 == spec_peek(old(cursor).remaining(), offset as int),
{
    let first = cursor.peek(offset);
    let second = cursor.peek(offset);
    (first, second)
}

} // verus!
