//! Tests for the token cursor of `arrow_parser`: bounded lookahead, monotonic
//! consumption, and the expect operation's labelled failures.

use arrow_parser::cursor::Cursor;
use arrow_parser::error::ParseError;
use arrow_parser::laws::lookahead_purity;
use arrow_parser::token::{Position, Punctuator, Token, TokenKind};

fn punct(p: Punctuator, column: u32) -> Token {
    Token { kind: TokenKind::Punctuator(p), pos: Position { line: 1, column } }
}

#[test]
fn two_peeks_return_identical_tokens_and_do_not_advance() {
    let mut cursor = Cursor::new(vec![punct(Punctuator::OpenBlock, 1), punct(Punctuator::CloseBlock, 2)]);
    let first = cursor.peek(0);
    let second = cursor.peek(0);
    assert_eq!(first, second);
    assert_eq!(first, Ok(punct(Punctuator::OpenBlock, 1)));
    assert_eq!(cursor.next(), Ok(punct(Punctuator::OpenBlock, 1)));
}

#[test]
fn lookahead_purity_law_holds_on_a_live_cursor() {
    let mut cursor = Cursor::new(vec![punct(Punctuator::Semicolon, 1)]);
    let (first, second) = lookahead_purity(&mut cursor, 0);
    assert_eq!(first, second);
    assert_eq!(first, Ok(punct(Punctuator::Semicolon, 1)));
    let (first, second) = lookahead_purity(&mut cursor, 1);
    assert_eq!(first, second);
    assert_eq!(first, Err(ParseError::AbruptEnd));
    assert_eq!(cursor.next(), Ok(punct(Punctuator::Semicolon, 1)));
}

#[test]
fn peek_past_the_end_is_an_abrupt_end() {
    let cursor = Cursor::new(vec![punct(Punctuator::OpenBlock, 1)]);
    assert_eq!(cursor.peek(1), Err(ParseError::AbruptEnd));
    assert_eq!(cursor.peek(0), Ok(punct(Punctuator::OpenBlock, 1)));
}

#[test]
fn next_consumes_left_to_right_then_ends() {
    let mut cursor = Cursor::new(vec![punct(Punctuator::OpenBlock, 1), punct(Punctuator::CloseBlock, 2)]);
    assert_eq!(cursor.next(), Ok(punct(Punctuator::OpenBlock, 1)));
    assert_eq!(cursor.next(), Ok(punct(Punctuator::CloseBlock, 2)));
    assert_eq!(cursor.next(), Err(ParseError::AbruptEnd));
    assert_eq!(cursor.next(), Err(ParseError::AbruptEnd));
}

#[test]
fn expect_consumes_only_on_a_match() {
    let mut cursor = Cursor::new(vec![punct(Punctuator::Semicolon, 1)]);
    let refused = cursor.expect(Punctuator::CloseBlock, "concise body");
    assert_eq!(
        refused,
        Err(ParseError::UnexpectedToken {
            expected: Some(TokenKind::Punctuator(Punctuator::CloseBlock)),
            found: punct(Punctuator::Semicolon, 1),
            context: "concise body",
        })
    );
    assert_eq!(cursor.peek(0), Ok(punct(Punctuator::Semicolon, 1)));
    assert_eq!(cursor.expect(Punctuator::Semicolon, "statement"), Ok(punct(Punctuator::Semicolon, 1)));
    assert_eq!(cursor.expect(Punctuator::Semicolon, "statement"), Err(ParseError::AbruptEnd));
}

#[test]
fn expect_carries_the_caller_chosen_label() {
    let mut cursor = Cursor::new(vec![punct(Punctuator::Semicolon, 1)]);
    let err = cursor.expect(Punctuator::CloseBlock, "async concise body");
    match err {
        Err(ParseError::UnexpectedToken { context, .. }) => {
            assert_eq!(context, "async concise body");
        }
        other => panic!("expected an UnexpectedToken, got {:?}", other),
    }
}
