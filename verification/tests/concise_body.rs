//! Behavioural tests for the concise-body grammar slice, driven through the
//! public productions of `arrow_parser`.

use arrow_parser::cursor::Cursor;
use arrow_parser::error::ParseError;
use arrow_parser::node::{Node, StatementList};
use arrow_parser::parser::{
    AssignmentExpression, ConciseBody, ExpressionBody, FunctionBody, TokenParser,
};
use arrow_parser::token::{Keyword, Position, Punctuator, Token, TokenKind};

fn tok(kind: TokenKind, column: u32) -> Token {
    Token { kind, pos: Position { line: 1, column } }
}

fn punct(p: Punctuator, column: u32) -> Token {
    tok(TokenKind::Punctuator(p), column)
}

fn kw(k: Keyword, column: u32) -> Token {
    tok(TokenKind::Keyword(k), column)
}

fn num(v: u64, column: u32) -> Token {
    tok(TokenKind::NumericLiteral(v), column)
}

fn ident(sym: u32, column: u32) -> Token {
    tok(TokenKind::Identifier(sym), column)
}

/// Tokens for `{ return 1; }`.
fn block_return_one() -> Vec<Token> {
    vec![
        punct(Punctuator::OpenBlock, 1),
        kw(Keyword::Return, 2),
        num(1, 9),
        punct(Punctuator::Semicolon, 10),
        punct(Punctuator::CloseBlock, 12),
    ]
}

fn return_one_node() -> Node {
    Node::Return(Some(Box::new(Node::Const(1))), None)
}

#[test]
fn block_body_is_the_inner_statement_list() {
    let mut cursor = Cursor::new(block_return_one());
    let result = ConciseBody::new(false, false).parse(&mut cursor);
    assert_eq!(result, Ok(StatementList { items: vec![return_one_node()] }));
    assert_eq!(cursor.next(), Err(ParseError::AbruptEnd));
}

#[test]
fn block_body_consumes_exactly_one_close_block() {
    let mut tokens = block_return_one();
    tokens.push(punct(Punctuator::CloseBlock, 14));
    let mut cursor = Cursor::new(tokens);
    let result = ConciseBody::new(false, false).parse(&mut cursor);
    assert_eq!(result, Ok(StatementList { items: vec![return_one_node()] }));
    assert_eq!(cursor.next(), Ok(punct(Punctuator::CloseBlock, 14)));
}

#[test]
fn expression_body_wraps_in_implicit_return() {
    let tokens = vec![ident(7, 1), punct(Punctuator::Add, 3), num(1, 5)];
    let mut cursor = Cursor::new(tokens);
    let result = ConciseBody::new(true, false).parse(&mut cursor);
    let add = Node::Add(Box::new(Node::Identifier(7)), Box::new(Node::Const(1)));
    assert_eq!(
        result,
        Ok(StatementList { items: vec![Node::Return(Some(Box::new(add)), None)] })
    );
    assert_eq!(cursor.next(), Err(ParseError::AbruptEnd));
}

#[test]
fn unterminated_block_fails_closed() {
    let tokens = vec![
        punct(Punctuator::OpenBlock, 1),
        kw(Keyword::Return, 2),
        num(1, 9),
        punct(Punctuator::Semicolon, 10),
    ];
    let mut cursor = Cursor::new(tokens);
    let result = ConciseBody::new(false, false).parse(&mut cursor);
    assert_eq!(result, Err(ParseError::AbruptEnd));
}

#[test]
fn parsing_twice_yields_identical_results() {
    let first = ConciseBody::new(true, false).parse(&mut Cursor::new(block_return_one()));
    let second = ConciseBody::new(true, false).parse(&mut Cursor::new(block_return_one()));
    assert_eq!(first, second);

    let expr = vec![ident(3, 1), punct(Punctuator::Add, 3), num(2, 5)];
    let first = ConciseBody::new(true, false).parse(&mut Cursor::new(expr.clone()));
    let second = ConciseBody::new(true, false).parse(&mut Cursor::new(expr));
    assert_eq!(first, second);
}

#[test]
fn async_flag_does_not_change_the_output() {
    let non_async = ConciseBody::new(false, false).parse(&mut Cursor::new(block_return_one()));
    let as_async = ConciseBody::new(false, true).parse(&mut Cursor::new(block_return_one()));
    assert_eq!(non_async, as_async);

    let expr = vec![num(4, 1)];
    let non_async = ConciseBody::new(true, false).parse(&mut Cursor::new(expr.clone()));
    let as_async = ConciseBody::new(true, true).parse(&mut Cursor::new(expr));
    assert_eq!(non_async, as_async);
}

#[test]
fn empty_block_yields_empty_statement_list() {
    let tokens = vec![punct(Punctuator::OpenBlock, 1), punct(Punctuator::CloseBlock, 2)];
    let mut cursor = Cursor::new(tokens);
    let result = ConciseBody::new(false, false).parse(&mut cursor);
    assert_eq!(result, Ok(StatementList { items: vec![] }));
}

#[test]
fn return_without_expression() {
    let tokens = vec![
        punct(Punctuator::OpenBlock, 1),
        kw(Keyword::Return, 2),
        punct(Punctuator::Semicolon, 8),
        punct(Punctuator::CloseBlock, 10),
    ];
    let mut cursor = Cursor::new(tokens);
    let result = ConciseBody::new(false, false).parse(&mut cursor);
    assert_eq!(result, Ok(StatementList { items: vec![Node::Return(None, None)] }));
}

#[test]
fn two_statements_in_a_block() {
    let tokens = vec![
        punct(Punctuator::OpenBlock, 1),
        kw(Keyword::Return, 2),
        num(1, 9),
        punct(Punctuator::Semicolon, 10),
        kw(Keyword::Return, 12),
        num(2, 19),
        punct(Punctuator::Semicolon, 20),
        punct(Punctuator::CloseBlock, 22),
    ];
    let mut cursor = Cursor::new(tokens);
    let result = ConciseBody::new(false, false).parse(&mut cursor);
    assert_eq!(
        result,
        Ok(StatementList {
            items: vec![
                return_one_node(),
                Node::Return(Some(Box::new(Node::Const(2))), None),
            ]
        })
    );
}

#[test]
fn empty_input_is_an_abrupt_end() {
    let mut cursor = Cursor::new(vec![]);
    let result = ConciseBody::new(false, false).parse(&mut cursor);
    assert_eq!(result, Err(ParseError::AbruptEnd));
}

#[test]
fn non_statement_token_inside_block_is_rejected() {
    let tokens = vec![
        punct(Punctuator::OpenBlock, 1),
        punct(Punctuator::Semicolon, 2),
        punct(Punctuator::CloseBlock, 3),
    ];
    let mut cursor = Cursor::new(tokens);
    let result = ConciseBody::new(false, false).parse(&mut cursor);
    assert_eq!(
        result,
        Err(ParseError::UnexpectedToken {
            expected: Some(TokenKind::Keyword(Keyword::Return)),
            found: punct(Punctuator::Semicolon, 2),
            context: "statement",
        })
    );
}

#[test]
fn missing_semicolon_after_return_expression() {
    let tokens = vec![
        punct(Punctuator::OpenBlock, 1),
        kw(Keyword::Return, 2),
        num(1, 9),
        punct(Punctuator::CloseBlock, 11),
    ];
    let mut cursor = Cursor::new(tokens);
    let result = ConciseBody::new(false, false).parse(&mut cursor);
    assert_eq!(
        result,
        Err(ParseError::UnexpectedToken {
            expected: Some(TokenKind::Punctuator(Punctuator::Semicolon)),
            found: punct(Punctuator::CloseBlock, 11),
            context: "return statement",
        })
    );
}

#[test]
fn expression_body_rejects_a_non_primary_start() {
    let tokens = vec![punct(Punctuator::Add, 1), num(1, 3)];
    let mut cursor = Cursor::new(tokens);
    let result = ConciseBody::new(true, false).parse(&mut cursor);
    assert_eq!(
        result,
        Err(ParseError::UnexpectedToken {
            expected: None,
            found: punct(Punctuator::Add, 1),
            context: "primary expression",
        })
    );
}

#[test]
fn dangling_operator_is_an_abrupt_end() {
    let tokens = vec![num(1, 1), punct(Punctuator::Add, 3)];
    let mut cursor = Cursor::new(tokens);
    let result = ConciseBody::new(true, false).parse(&mut cursor);
    assert_eq!(result, Err(ParseError::AbruptEnd));
}

#[test]
fn in_operator_is_gated_by_the_allow_in_flag() {
    let tokens = vec![ident(1, 1), kw(Keyword::In, 3), ident(2, 6)];

    let mut cursor = Cursor::new(tokens.clone());
    let permitted = ConciseBody::new(true, false).parse(&mut cursor);
    let in_node = Node::In(Box::new(Node::Identifier(1)), Box::new(Node::Identifier(2)));
    assert_eq!(
        permitted,
        Ok(StatementList { items: vec![Node::Return(Some(Box::new(in_node)), None)] })
    );
    assert_eq!(cursor.next(), Err(ParseError::AbruptEnd));

    let mut cursor = Cursor::new(tokens);
    let refused = ConciseBody::new(false, false).parse(&mut cursor);
    assert_eq!(
        refused,
        Ok(StatementList {
            items: vec![Node::Return(Some(Box::new(Node::Identifier(1))), None)]
        })
    );
    assert_eq!(cursor.next(), Ok(kw(Keyword::In, 3)));
}

#[test]
fn return_statement_widens_the_in_flag_for_its_own_expression() {
    // The concise body inherits allow-in = false, but a return statement's
    // expression is parsed under [+In]: the adjusted flag reaches only the
    // statement's own children, never a sibling production.
    let tokens = vec![
        punct(Punctuator::OpenBlock, 1),
        kw(Keyword::Return, 2),
        ident(1, 9),
        kw(Keyword::In, 11),
        ident(2, 14),
        punct(Punctuator::Semicolon, 15),
        punct(Punctuator::CloseBlock, 17),
    ];
    let mut cursor = Cursor::new(tokens);
    let result = ConciseBody::new(false, false).parse(&mut cursor);
    let in_node = Node::In(Box::new(Node::Identifier(1)), Box::new(Node::Identifier(2)));
    assert_eq!(
        result,
        Ok(StatementList { items: vec![Node::Return(Some(Box::new(in_node)), None)] })
    );
}

#[test]
fn operator_chain_is_left_associative() {
    let tokens = vec![
        num(1, 1),
        punct(Punctuator::Add, 3),
        num(2, 5),
        punct(Punctuator::Add, 7),
        num(3, 9),
    ];
    let mut cursor = Cursor::new(tokens);
    let result = AssignmentExpression::new(true, false, false).parse(&mut cursor);
    let inner = Node::Add(Box::new(Node::Const(1)), Box::new(Node::Const(2)));
    assert_eq!(result, Ok(Node::Add(Box::new(inner), Box::new(Node::Const(3)))));
}

#[test]
fn expression_body_forwards_to_assignment_expression() {
    let tokens = vec![ident(9, 1)];
    let mut cursor = Cursor::new(tokens);
    let result = ExpressionBody::new(true, false).parse(&mut cursor);
    assert_eq!(result, Ok(Node::Identifier(9)));
}

#[test]
fn function_body_stops_before_the_close_block() {
    let tokens = vec![
        kw(Keyword::Return, 1),
        num(1, 8),
        punct(Punctuator::Semicolon, 9),
        punct(Punctuator::CloseBlock, 11),
    ];
    let mut cursor = Cursor::new(tokens);
    let result = FunctionBody::new(false, false).parse(&mut cursor);
    assert_eq!(result, Ok(StatementList { items: vec![return_one_node()] }));
    assert_eq!(cursor.next(), Ok(punct(Punctuator::CloseBlock, 11)));
}
