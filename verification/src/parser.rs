//! The production protocol and the grammar-rule parsers that implement it.
//!
//! Every grammar-rule parser is a small copyable value carrying its
//! construction-time context flags, and implements one operation: consume from
//! a cursor, produce one AST node or fail. The protocol's contract makes each
//! production's behaviour a pure function of the tokens in front of the cursor
//! and the production's own flags — which is what rules out backtracking and
//! context bleeding between sibling calls. A composite rule is then built
//! purely by sequencing and branching such calls: failures propagate verbatim,
//! and no production has side effects beyond consuming tokens.

use crate::context::{AllowAwait, AllowIn, AllowYield};
use crate::cursor::Cursor;
use crate::error::ParseError;
use crate::grammar;
use crate::node::{Node, StatementList};
use crate::token::{Keyword, Punctuator, Token, TokenKind};
use vstd::prelude::*;
use vstd::std_specs::convert::IntoSpec;

verus! {

/// The uniform capability of every grammar-rule parser.
///
/// `spec_parse` is the production's mathematical meaning: the parsed value and
/// consumed token count, or the exact error, as a function of the tokens in
/// front of it. `parse` must realize exactly that meaning on the cursor: it
/// never rewinds, consumes precisely the spec's count on success, and returns
/// precisely the spec's error on failure. Two calls on equal remaining tokens
/// under equal flags therefore return equal results — parsing is deterministic
/// and backtrack-free by contract.
pub trait TokenParser: Sized {
    /// The AST value this production emits.
    type Output: View;

    /// What this production means on the tokens `ts`.
    spec fn spec_parse(self, ts: Seq<Token>) -> Result<
        (<Self::Output as View>::V, int),
        ParseError,
    >;

    /// Runs the production at the cursor's read position.
    fn parse(self, cursor: &mut Cursor) -> (r: Result<Self::Output, ParseError>)
        requires
            old(cursor).well_formed(),
        ensures
            final(cursor).well_formed(),
            final(cursor).stream() == old(cursor).stream(),
            old(cursor).position() <= final(cursor).position(),
            (match self.spec_parse(old(cursor).remaining()) {
                Ok((v, n)) => (r matches Ok(out) && out@ == v) && final(cursor).position() == old(
                    cursor,
                ).position() + n,
                Err(e) => r == Err::<Self::Output, ParseError>(e),
            }),
    ;
}

/// PrimaryExpression parsing: an identifier or an integer literal.
#[derive(Debug, Clone, Copy)]
pub struct PrimaryExpression;

impl TokenParser for PrimaryExpression {
    type Output = Node;

    open spec fn spec_parse(self, ts: Seq<Token>) -> Result<(Node, int), ParseError> {
        grammar::parse_primary(ts)
    }

    fn parse(self, cursor: &mut Cursor) -> (r: Result<Node, ParseError>) {
        let tok = match cursor.peek(0) {
            Ok(t) => t,
            Err(e) => {
                return Err(e);
            },
        };
        match tok.kind {
            TokenKind::Identifier(sym) => {
                let _ = cursor.next();
                Ok(Node::Identifier(sym))
            },
            TokenKind::NumericLiteral(v) => {
                let _ = cursor.next();
                Ok(Node::Const(v))
            },
            _ => Err(
                ParseError::UnexpectedToken {
                    expected: None,
                    found: tok,
                    context: "primary expression",
                },
            ),
        }
    }
}

/// AssignmentExpression parsing: a primary expression followed by its
/// left-associative operator chain. Whether `in` may stand in the chain is
/// decided by the allow-in flag; the yield and await flags are threaded for
/// the forms the wider grammar gates on them, none of which stand in this
/// slice.
#[derive(Debug, Clone, Copy)]
pub struct AssignmentExpression {
    pub allow_in: AllowIn,
    pub allow_yield: AllowYield,
    pub allow_await: AllowAwait,
}

impl AssignmentExpression {
    /// Creates a new `AssignmentExpression` parser.
    pub fn new<I, Y, A>(allow_in: I, allow_yield: Y, allow_await: A) -> (r: Self) where
        I: Into<AllowIn>,
        Y: Into<AllowYield>,
        A: Into<AllowAwait>,

        ensures
            I::obeys_into_spec() ==> r.allow_in == allow_in.into_spec(),
            Y::obeys_into_spec() ==> r.allow_yield == allow_yield.into_spec(),
            A::obeys_into_spec() ==> r.allow_await == allow_await.into_spec(),
    {
        Self { allow_in: allow_in.into(), allow_yield: allow_yield.into(), allow_await: allow_await.into() }
    }
}

impl TokenParser for AssignmentExpression {
    type Output = Node;

    open spec fn spec_parse(self, ts: Seq<Token>) -> Result<(Node, int), ParseError> {
        grammar::parse_assignment(ts, self.allow_in.0)
    }

    fn parse(self, cursor: &mut Cursor) -> (r: Result<Node, ParseError>) {
        broadcast use vstd::seq_lib::lemma_seq_skip_of_skip;

        let ghost ts0 = cursor.remaining();
        let ghost pos0 = cursor.position();
        let mut left = match (PrimaryExpression).parse(cursor) {
            Ok(n) => n,
            Err(e) => {
                return Err(e);
            },
        };
        proof {
            grammar::lemma_operator_tail_consumed(cursor.remaining(), left, self.allow_in.0);
        }
        loop
            invariant
                cursor.well_formed(),
                cursor.stream() == old(cursor).stream(),
                pos0 == old(cursor).position(),
                ts0 == old(cursor).remaining(),
                pos0 < cursor.position() <= cursor.stream().len(),
                (match grammar::parse_operator_tail(cursor.remaining(), left, self.allow_in.0) {
                    Ok((node, m)) => grammar::parse_assignment(ts0, self.allow_in.0) == Ok::<
                        (Node, int),
                        ParseError,
                    >((node, cursor.position() - pos0 + m)),
                    Err(e) => grammar::parse_assignment(ts0, self.allow_in.0) == Err::<
                        (Node, int),
                        ParseError,
                    >(e),
                }),
            decreases cursor.stream().len() - cursor.position(),
        {
            broadcast use vstd::seq_lib::lemma_seq_skip_of_skip;

            let op = match cursor.peek(0) {
                Ok(t) => t,
                Err(_) => {
                    return Ok(left);
                },
            };
            let is_op = match op.kind {
                TokenKind::Punctuator(Punctuator::Add) => true,
                TokenKind::Keyword(Keyword::In) => self.allow_in.0,
                _ => false,
            };
            if !is_op {
                return Ok(left);
            }
            let _ = cursor.next();
            let right = match (PrimaryExpression).parse(cursor) {
                Ok(n) => n,
                Err(e) => {
                    return Err(e);
                },
            };
            left = if op.kind == TokenKind::Punctuator(Punctuator::Add) {
                Node::Add(Box::new(left), Box::new(right))
            } else {
                Node::In(Box::new(left), Box::new(right))
            };
            proof {
                grammar::lemma_operator_tail_consumed(cursor.remaining(), left, self.allow_in.0);
            }
        }
    }
}

/// Statement parsing. The statement form of this slice is the `return`
/// statement; the yield and await flags are threaded for the statement forms
/// the wider grammar gates on them.
#[derive(Debug, Clone, Copy)]
pub struct Statement {
    pub allow_yield: AllowYield,
    pub allow_await: AllowAwait,
}

impl Statement {
    /// Creates a new `Statement` parser.
    pub fn new<Y, A>(allow_yield: Y, allow_await: A) -> (r: Self) where
        Y: Into<AllowYield>,
        A: Into<AllowAwait>,

        ensures
            Y::obeys_into_spec() ==> r.allow_yield == allow_yield.into_spec(),
            A::obeys_into_spec() ==> r.allow_await == allow_await.into_spec(),
    {
        Self { allow_yield: allow_yield.into(), allow_await: allow_await.into() }
    }
}

impl TokenParser for Statement {
    type Output = Node;

    open spec fn spec_parse(self, ts: Seq<Token>) -> Result<(Node, int), ParseError> {
        grammar::parse_statement(ts)
    }

    fn parse(self, cursor: &mut Cursor) -> (r: Result<Node, ParseError>) {
        broadcast use vstd::seq_lib::lemma_seq_skip_of_skip;

        let tok = match cursor.peek(0) {
            Ok(t) => t,
            Err(e) => {
                return Err(e);
            },
        };
        match tok.kind {
            TokenKind::Keyword(Keyword::Return) => {},
            _ => {
                return Err(
                    ParseError::UnexpectedToken {
                        expected: Some(TokenKind::Keyword(Keyword::Return)),
                        found: tok,
                        context: "statement",
                    },
                );
            },
        }
        let _ = cursor.next();
        let semi = match cursor.peek(0) {
            Ok(t) => (match t.kind {
                TokenKind::Punctuator(Punctuator::Semicolon) => true,
                _ => false,
            }),
            Err(_) => false,
        };
        if semi {
            let _ = cursor.next();
            return Ok(Node::Return(None, None));
        }
        let ghost rest = cursor.remaining();
        let expr = match AssignmentExpression::new(true, self.allow_yield.0, self.allow_await.0)
            .parse(cursor) {
            Ok(n) => n,
            Err(e) => {
                return Err(e);
            },
        };
        proof {
            grammar::lemma_assignment_consumed(rest, true);
        }
        match cursor.expect(Punctuator::Semicolon, "return statement") {
            Ok(_) => {},
            Err(e) => {
                return Err(e);
            },
        }
        Ok(Node::Return(Some(Box::new(expr)), None))
    }
}

/// FunctionBody parsing: the statement list between the braces of a block
/// body, up to and not including the close-block punctuator (or the stream's
/// end; whether the brace is there is its caller's check).
#[derive(Debug, Clone, Copy)]
pub struct FunctionBody {
    pub allow_yield: AllowYield,
    pub allow_await: AllowAwait,
}

impl FunctionBody {
    /// Creates a new `FunctionBody` parser.
    pub fn new<Y, A>(allow_yield: Y, allow_await: A) -> (r: Self) where
        Y: Into<AllowYield>,
        A: Into<AllowAwait>,

        ensures
            Y::obeys_into_spec() ==> r.allow_yield == allow_yield.into_spec(),
            A::obeys_into_spec() ==> r.allow_await == allow_await.into_spec(),
    {
        Self { allow_yield: allow_yield.into(), allow_await: allow_await.into() }
    }
}

impl TokenParser for FunctionBody {
    type Output = StatementList;

    open spec fn spec_parse(self, ts: Seq<Token>) -> Result<(Seq<Node>, int), ParseError> {
        grammar::parse_statement_list(ts)
    }

    fn parse(self, cursor: &mut Cursor) -> (r: Result<StatementList, ParseError>) {
        broadcast use vstd::seq_lib::lemma_seq_skip_of_skip;

        let ghost ts0 = cursor.remaining();
        let ghost pos0 = cursor.position();
        let mut items: Vec<Node> = Vec::new();
        loop
            invariant
                cursor.well_formed(),
                cursor.stream() == old(cursor).stream(),
                pos0 == old(cursor).position(),
                ts0 == old(cursor).remaining(),
                pos0 <= cursor.position() <= cursor.stream().len(),
                (match grammar::parse_statement_list(cursor.remaining()) {
                    Ok((rest, m)) => grammar::parse_statement_list(ts0) == Ok::<
                        (Seq<Node>, int),
                        ParseError,
                    >((items@ + rest, cursor.position() - pos0 + m)),
                    Err(e) => grammar::parse_statement_list(ts0) == Err::<
                        (Seq<Node>, int),
                        ParseError,
                    >(e),
                }),
            decreases cursor.stream().len() - cursor.position(),
        {
            broadcast use vstd::seq_lib::lemma_seq_skip_of_skip;

            let done = match cursor.peek(0) {
                Ok(t) => (match t.kind {
                    TokenKind::Punctuator(Punctuator::CloseBlock) => true,
                    _ => false,
                }),
                Err(_) => true,
            };
            if done {
                proof {
                    assert(items@ + Seq::<Node>::empty() =~= items@);
                }
                return Ok(StatementList::from(items));
            }
            let ghost rem = cursor.remaining();
            let ghost items_before = items@;
            let stmt = match Statement::new(self.allow_yield.0, self.allow_await.0).parse(cursor) {
                Ok(s) => s,
                Err(e) => {
                    return Err(e);
                },
            };
            items.push(stmt);
            proof {
                grammar::lemma_statement_consumed(rem);
                match grammar::parse_statement_list(cursor.remaining()) {
                    Ok((rest2, m2)) => {
                        assert(items_before + (seq![stmt] + rest2) =~= items@ + rest2);
                    },
                    Err(_) => {},
                }
            }
        }
    }
}

/// ExpressionBody parsing: the single-expression body of a concise form.
///
/// A pure forwarding rule: it delegates to [`AssignmentExpression`] with the
/// inherited allow-in and allow-await flags and the yield context pinned to
/// "not permitted" — an expression body does not itself introduce a yield
/// context. Its purpose is to name this grammar position and pin those
/// parameter values.
#[derive(Debug, Clone, Copy)]
pub struct ExpressionBody {
    pub allow_in: AllowIn,
    pub allow_await: AllowAwait,
}

impl ExpressionBody {
    /// Creates a new `ExpressionBody` parser.
    pub fn new<I, A>(allow_in: I, allow_await: A) -> (r: Self) where
        I: Into<AllowIn>,
        A: Into<AllowAwait>,

        ensures
            I::obeys_into_spec() ==> r.allow_in == allow_in.into_spec(),
            A::obeys_into_spec() ==> r.allow_await == allow_await.into_spec(),
    {
        Self { allow_in: allow_in.into(), allow_await: allow_await.into() }
    }
}

impl TokenParser for ExpressionBody {
    type Output = Node;

    open spec fn spec_parse(self, ts: Seq<Token>) -> Result<(Node, int), ParseError> {
        grammar::parse_expression_body(ts, self.allow_in.0)
    }

    fn parse(self, cursor: &mut Cursor) -> (r: Result<Node, ParseError>) {
        AssignmentExpression::new(self.allow_in.0, false, self.allow_await.0).parse(cursor)
    }
}

/// ConciseBody / AsyncConciseBody parsing: the body of an arrow function.
///
/// The two forms parse identically, so one flag serves both and decides only
/// the diagnostic label at the close-block check. One token of lookahead picks
/// the branch: an open-block punctuator starts a block body, delegated to
/// [`FunctionBody`] with generator mode forced off and the async flag
/// forwarded unchanged, and closed by a mandatory close-block punctuator;
/// anything else is delegated whole to [`ExpressionBody`], and the resulting
/// node is wrapped as the sole expression of an implicit, label-less `return`
/// statement.
#[derive(Debug, Clone, Copy)]
pub struct ConciseBody {
    pub allow_in: AllowIn,
    pub is_async: bool,
}

impl ConciseBody {
    /// Creates a new `ConciseBody` parser.
    pub fn new<I>(allow_in: I, is_async: bool) -> (r: Self) where I: Into<AllowIn>
        ensures
            I::obeys_into_spec() ==> r.allow_in == allow_in.into_spec(),
            r.is_async == is_async,
    {
        Self { allow_in: allow_in.into(), is_async }
    }
}

impl TokenParser for ConciseBody {
    type Output = StatementList;

    open spec fn spec_parse(self, ts: Seq<Token>) -> Result<(Seq<Node>, int), ParseError> {
        grammar::parse_concise_body(ts, self.allow_in.0, self.is_async)
    }

    fn parse(self, cursor: &mut Cursor) -> (r: Result<StatementList, ParseError>) {
        broadcast use vstd::seq_lib::lemma_seq_skip_of_skip;

        let tok = match cursor.peek(0) {
            Ok(t) => t,
            Err(e) => {
                return Err(e);
            },
        };
        match tok.kind {
            TokenKind::Punctuator(Punctuator::OpenBlock) => {
                let _ = cursor.next();
                let ghost inner = cursor.remaining();
                let body = match FunctionBody::new(false, self.is_async).parse(cursor) {
                    Ok(b) => b,
                    Err(e) => {
                        return Err(e);
                    },
                };
                proof {
                    grammar::lemma_statement_list_consumed(inner);
                }
                if self.is_async {
                    match cursor.expect(Punctuator::CloseBlock, "async concise body") {
                        Ok(_) => {},
                        Err(e) => {
                            return Err(e);
                        },
                    }
                } else {
                    match cursor.expect(Punctuator::CloseBlock, "concise body") {
                        Ok(_) => {},
                        Err(e) => {
                            return Err(e);
                        },
                    }
                }
                Ok(body)
            },
            _ => {
                let expr = match ExpressionBody::new(self.allow_in.0, self.is_async).parse(cursor) {
                    Ok(n) => n,
                    Err(e) => {
                        return Err(e);
                    },
                };
                let ghost wrapped = expr;
                let body = StatementList::from(vec![Node::Return(Some(Box::new(expr)), None)]);
                proof {
                    assert(body@ =~= seq![Node::Return(Some(Box::new(wrapped)), None)]);
                }
                Ok(body)
            },
        }
    }
}

} // verus!
