use try_parser::ast::{
    CatchBlock, CatchType, FinallyBlock, Identifier, Statement, StatementKind, TryStatement, Variable,
};
use try_parser::error::ParseError;
use try_parser::state::State;
use try_parser::token::{Span, Token, TokenKind};
use try_parser::try_block::{catch_type, try_block};

fn sp(i: u32) -> Span {
    Span { start: i, end: i + 1 }
}

fn tok(kind: TokenKind, i: u32) -> Token {
    Token { kind, span: sp(i), symbol: 0 }
}

fn name(symbol: u32, i: u32) -> Token {
    Token { kind: TokenKind::Identifier, span: sp(i), symbol }
}

fn variable(symbol: u32, i: u32) -> Token {
    Token { kind: TokenKind::Variable, span: sp(i), symbol }
}

fn eof_span_after(i: u32) -> Span {
    // State::new appends the end-of-input token with an empty span right
    // after the last real token, whose span is (i, i + 1).
    Span { start: i + 1, end: i + 1 }
}

#[test]
fn try_catch_with_variable() {
    // try { S1 } catch (T $e) { S2 }
    let mut state = State::new(vec![
        tok(TokenKind::Try, 0),
        tok(TokenKind::LeftBrace, 1),
        tok(TokenKind::Other, 2),
        tok(TokenKind::RightBrace, 3),
        tok(TokenKind::Catch, 4),
        tok(TokenKind::LeftParen, 5),
        name(1, 6),
        variable(2, 7),
        tok(TokenKind::RightParen, 8),
        tok(TokenKind::LeftBrace, 9),
        tok(TokenKind::Other, 10),
        tok(TokenKind::RightBrace, 11),
    ]);
    let r = try_block(&mut state);
    let expected = TryStatement {
        start: sp(0),
        end: eof_span_after(11),
        body: vec![Statement { token: tok(TokenKind::Other, 2) }],
        catches: vec![CatchBlock {
            start: sp(4),
            end: eof_span_after(11),
            types: CatchType::Identifier { identifier: Identifier { span: sp(6), symbol: 1 } },
            var: Some(Variable { span: sp(7), symbol: 2 }),
            body: vec![Statement { token: tok(TokenKind::Other, 10) }],
        }],
        finally: None,
    };
    assert_eq!(r, Ok(StatementKind::Try(expected)));
    assert_eq!(state.position, 12);
}

#[test]
fn catch_type_union_of_three() {
    // catch (A|B|C ...): exactly three names, in source order.
    let mut state = State::new(vec![
        name(10, 0),
        tok(TokenKind::Pipe, 1),
        name(11, 2),
        tok(TokenKind::Pipe, 3),
        name(12, 4),
        tok(TokenKind::RightParen, 5),
    ]);
    let r = catch_type(&mut state);
    assert_eq!(
        r,
        Ok(CatchType::Union {
            identifiers: vec![
                Identifier { span: sp(0), symbol: 10 },
                Identifier { span: sp(2), symbol: 11 },
                Identifier { span: sp(4), symbol: 12 },
            ]
        })
    );
    assert_eq!(state.position, 5);
}

#[test]
fn catch_without_variable() {
    // try {} catch (A) {}: no bound variable.
    let mut state = State::new(vec![
        tok(TokenKind::Try, 0),
        tok(TokenKind::LeftBrace, 1),
        tok(TokenKind::RightBrace, 2),
        tok(TokenKind::Catch, 3),
        tok(TokenKind::LeftParen, 4),
        name(1, 5),
        tok(TokenKind::RightParen, 6),
        tok(TokenKind::LeftBrace, 7),
        tok(TokenKind::RightBrace, 8),
    ]);
    let r = try_block(&mut state);
    match r {
        Ok(StatementKind::Try(ts)) => {
            assert_eq!(ts.catches.len(), 1);
            assert_eq!(ts.catches[0].var, None);
            assert_eq!(
                ts.catches[0].types,
                CatchType::Identifier { identifier: Identifier { span: sp(5), symbol: 1 } }
            );
        }
        other => panic!("expected a try statement, got {:?}", other),
    }
}

#[test]
fn try_finally_without_catches() {
    // try {} finally {}: succeeds with empty catches and a finally block.
    let mut state = State::new(vec![
        tok(TokenKind::Try, 0),
        tok(TokenKind::LeftBrace, 1),
        tok(TokenKind::RightBrace, 2),
        tok(TokenKind::Finally, 3),
        tok(TokenKind::LeftBrace, 4),
        tok(TokenKind::RightBrace, 5),
    ]);
    let r = try_block(&mut state);
    let expected = TryStatement {
        start: sp(0),
        end: eof_span_after(5),
        body: vec![],
        catches: vec![],
        finally: Some(FinallyBlock { start: sp(3), end: eof_span_after(5), body: vec![] }),
    };
    assert_eq!(r, Ok(StatementKind::Try(expected)));
}

#[test]
fn try_without_catch_or_finally() {
    // try {}: the tolerant path is not implemented; the parse reports that
    // under its explicit error name instead of producing a node.
    let mut state = State::new(vec![
        tok(TokenKind::Try, 0),
        tok(TokenKind::LeftBrace, 1),
        tok(TokenKind::RightBrace, 2),
    ]);
    let r = try_block(&mut state);
    assert_eq!(r, Err(ParseError::UnimplementedTolerantPath { start: sp(0), end: sp(2) }));
}

#[test]
fn two_catches_keep_source_order() {
    // try {} catch(A){} catch(B){}: catches are [A, B], never reordered.
    let mut state = State::new(vec![
        tok(TokenKind::Try, 0),
        tok(TokenKind::LeftBrace, 1),
        tok(TokenKind::RightBrace, 2),
        tok(TokenKind::Catch, 3),
        tok(TokenKind::LeftParen, 4),
        name(1, 5),
        tok(TokenKind::RightParen, 6),
        tok(TokenKind::LeftBrace, 7),
        tok(TokenKind::RightBrace, 8),
        tok(TokenKind::Catch, 9),
        tok(TokenKind::LeftParen, 10),
        name(2, 11),
        tok(TokenKind::RightParen, 12),
        tok(TokenKind::LeftBrace, 13),
        tok(TokenKind::RightBrace, 14),
    ]);
    let r = try_block(&mut state);
    match r {
        Ok(StatementKind::Try(ts)) => {
            assert_eq!(ts.catches.len(), 2);
            assert_eq!(
                ts.catches[0].types,
                CatchType::Identifier { identifier: Identifier { span: sp(5), symbol: 1 } }
            );
            assert_eq!(
                ts.catches[1].types,
                CatchType::Identifier { identifier: Identifier { span: sp(11), symbol: 2 } }
            );
            // The first clause's end span is the span of the token right
            // after it: the second `catch` keyword.
            assert_eq!(ts.catches[0].end, sp(9));
            assert_eq!(ts.catches[1].end, eof_span_after(14));
        }
        other => panic!("expected a try statement, got {:?}", other),
    }
}

#[test]
fn truncated_union_terminates() {
    // catch (A| followed by end-of-input: the union loop stops at the
    // end-of-input check, leaving the one name read before the pipe.
    let mut state = State::new(vec![name(1, 0), tok(TokenKind::Pipe, 1)]);
    let r = catch_type(&mut state);
    assert_eq!(
        r,
        Ok(CatchType::Union { identifiers: vec![Identifier { span: sp(0), symbol: 1 }] })
    );
    // The cursor rests on the end-of-input token.
    assert_eq!(state.position, 2);
    assert!(state.is_eof());
}

#[test]
fn truncated_union_inside_try_reports_missing_paren() {
    // try {} catch (A| then end-of-input: the union ends silently, after
    // which the missing right parenthesis is reported.
    let mut state = State::new(vec![
        tok(TokenKind::Try, 0),
        tok(TokenKind::LeftBrace, 1),
        tok(TokenKind::RightBrace, 2),
        tok(TokenKind::Catch, 3),
        tok(TokenKind::LeftParen, 4),
        name(1, 5),
        tok(TokenKind::Pipe, 6),
    ]);
    let r = try_block(&mut state);
    assert_eq!(
        r,
        Err(ParseError::ExpectedToken {
            expected: TokenKind::Variable,
            found: TokenKind::Eof,
            position: eof_span_after(6),
        })
    );
}

#[test]
fn union_of_two_with_variable() {
    // try {} catch (A|B $e) {}
    let mut state = State::new(vec![
        tok(TokenKind::Try, 0),
        tok(TokenKind::LeftBrace, 1),
        tok(TokenKind::RightBrace, 2),
        tok(TokenKind::Catch, 3),
        tok(TokenKind::LeftParen, 4),
        name(1, 5),
        tok(TokenKind::Pipe, 6),
        name(2, 7),
        variable(3, 8),
        tok(TokenKind::RightParen, 9),
        tok(TokenKind::LeftBrace, 10),
        tok(TokenKind::RightBrace, 11),
    ]);
    let r = try_block(&mut state);
    match r {
        Ok(StatementKind::Try(ts)) => {
            assert_eq!(
                ts.catches[0].types,
                CatchType::Union {
                    identifiers: vec![
                        Identifier { span: sp(5), symbol: 1 },
                        Identifier { span: sp(7), symbol: 2 },
                    ]
                }
            );
            assert_eq!(ts.catches[0].var, Some(Variable { span: sp(8), symbol: 3 }));
        }
        other => panic!("expected a try statement, got {:?}", other),
    }
}

#[test]
fn missing_left_brace_after_try() {
    let mut state = State::new(vec![tok(TokenKind::Try, 0), tok(TokenKind::Other, 1)]);
    let r = try_block(&mut state);
    assert_eq!(
        r,
        Err(ParseError::ExpectedToken {
            expected: TokenKind::LeftBrace,
            found: TokenKind::Other,
            position: sp(1),
        })
    );
}

#[test]
fn malformed_catch_type_name() {
    // try {} catch ($e ...): the catch-type must start with a name.
    let mut state = State::new(vec![
        tok(TokenKind::Try, 0),
        tok(TokenKind::LeftBrace, 1),
        tok(TokenKind::RightBrace, 2),
        tok(TokenKind::Catch, 3),
        tok(TokenKind::LeftParen, 4),
        variable(1, 5),
    ]);
    let r = try_block(&mut state);
    assert_eq!(
        r,
        Err(ParseError::MalformedIdentifier { found: TokenKind::Variable, position: sp(5) })
    );
}

#[test]
fn second_variable_reports_missing_paren() {
    // try {} catch (A $e $f ...): only one variable can be bound.
    let mut state = State::new(vec![
        tok(TokenKind::Try, 0),
        tok(TokenKind::LeftBrace, 1),
        tok(TokenKind::RightBrace, 2),
        tok(TokenKind::Catch, 3),
        tok(TokenKind::LeftParen, 4),
        name(1, 5),
        variable(2, 6),
        variable(3, 7),
    ]);
    let r = try_block(&mut state);
    assert_eq!(
        r,
        Err(ParseError::ExpectedToken {
            expected: TokenKind::RightParen,
            found: TokenKind::Variable,
            position: sp(7),
        })
    );
}

#[test]
fn missing_brace_after_finally() {
    let mut state = State::new(vec![
        tok(TokenKind::Try, 0),
        tok(TokenKind::LeftBrace, 1),
        tok(TokenKind::RightBrace, 2),
        tok(TokenKind::Finally, 3),
        tok(TokenKind::RightParen, 4),
    ]);
    let r = try_block(&mut state);
    assert_eq!(
        r,
        Err(ParseError::ExpectedToken {
            expected: TokenKind::LeftBrace,
            found: TokenKind::RightParen,
            position: sp(4),
        })
    );
}

#[test]
fn end_span_is_token_after_construct() {
    // try { x } catch (A) {} y: `end` records the span of the token
    // immediately following the construct (`y`), not the closing brace.
    let mut state = State::new(vec![
        tok(TokenKind::Try, 0),
        tok(TokenKind::LeftBrace, 1),
        tok(TokenKind::Other, 2),
        tok(TokenKind::RightBrace, 3),
        tok(TokenKind::Catch, 4),
        tok(TokenKind::LeftParen, 5),
        name(1, 6),
        tok(TokenKind::RightParen, 7),
        tok(TokenKind::LeftBrace, 8),
        tok(TokenKind::RightBrace, 9),
        tok(TokenKind::Other, 10),
    ]);
    let r = try_block(&mut state);
    match r {
        Ok(StatementKind::Try(ts)) => {
            assert_eq!(ts.end, sp(10));
            assert_eq!(ts.catches[0].end, sp(10));
            assert_eq!(state.position, 10);
        }
        other => panic!("expected a try statement, got {:?}", other),
    }
}

#[test]
fn body_collects_statements_in_order() {
    // try { a b c } finally {}
    let mut state = State::new(vec![
        tok(TokenKind::Try, 0),
        tok(TokenKind::LeftBrace, 1),
        tok(TokenKind::Other, 2),
        name(7, 3),
        variable(8, 4),
        tok(TokenKind::RightBrace, 5),
        tok(TokenKind::Finally, 6),
        tok(TokenKind::LeftBrace, 7),
        tok(TokenKind::RightBrace, 8),
    ]);
    let r = try_block(&mut state);
    match r {
        Ok(StatementKind::Try(ts)) => {
            assert_eq!(
                ts.body,
                vec![
                    Statement { token: tok(TokenKind::Other, 2) },
                    Statement { token: name(7, 3) },
                    Statement { token: variable(8, 4) },
                ]
            );
        }
        other => panic!("expected a try statement, got {:?}", other),
    }
}
