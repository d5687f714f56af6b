use vstd::prelude::*;
use crate::ast::{
    catch_blocks_view, CatchBlock, CatchBlockV, CatchType, CatchTypeV, FinallyBlock, Identifier,
    Statement, StatementKind, TryStatement, TryStatementV, Variable,
};
use crate::error::{ParseError, ParseResult};
use crate::grammar::{
    spec_catch_type, spec_catches, spec_finally, spec_full_name, spec_simple_variable, spec_skip,
    spec_statements_until, spec_try_block, spec_union_rest,
};
use crate::state::State;
use crate::token::{Span, TokenKind};

verus! {

/// Consumes one expected punctuation token and returns its span, or fails
/// with [`ParseError::ExpectedToken`] without moving the cursor.
pub fn skip(state: &mut State, kind: TokenKind) -> (r: ParseResult<Span>)
    requires
        old(state).wf(),
        kind != TokenKind::Eof,
    ensures
        final(state).wf(),
        final(state).tokens@ == old(state).tokens@,
        ({
            let step = spec_skip(old(state).tokens@, old(state).position as int, kind);
            match r {
                Ok(sp) => step == Ok::<(Span, int), ParseError>((sp, final(state).position as int)),
                Err(e) => step == Err::<(Span, int), ParseError>(e) && *final(state) == *old(state),
            }
        }),
{
    let current = state.current();
    if current.kind == kind {
        state.next();
        Ok(current.span)
    } else {
        Err(ParseError::ExpectedToken { expected: kind, found: current.kind, position: current.span })
    }
}

/// Parses one qualified name, or fails with
/// [`ParseError::MalformedIdentifier`] without moving the cursor.
pub fn full_name(state: &mut State) -> (r: ParseResult<Identifier>)
    requires
        old(state).wf(),
    ensures
        final(state).wf(),
        final(state).tokens@ == old(state).tokens@,
        ({
            let step = spec_full_name(old(state).tokens@, old(state).position as int);
            match r {
                Ok(id) => step == Ok::<(Identifier, int), ParseError>((id, final(state).position as int)),
                Err(e) => step == Err::<(Identifier, int), ParseError>(e) && *final(state) == *old(state),
            }
        }),
{
    let current = state.current();
    if current.kind == TokenKind::Identifier {
        state.next();
        Ok(Identifier { span: current.span, symbol: current.symbol })
    } else {
        Err(ParseError::MalformedIdentifier { found: current.kind, position: current.span })
    }
}

/// Parses one bound variable, or fails with
/// [`ParseError::ExpectedToken`] without moving the cursor.
pub fn simple_variable(state: &mut State) -> (r: ParseResult<Variable>)
    requires
        old(state).wf(),
    ensures
        final(state).wf(),
        final(state).tokens@ == old(state).tokens@,
        ({
            let step = spec_simple_variable(old(state).tokens@, old(state).position as int);
            match r {
                Ok(v) => step == Ok::<(Variable, int), ParseError>((v, final(state).position as int)),
                Err(e) => step == Err::<(Variable, int), ParseError>(e) && *final(state) == *old(state),
            }
        }),
{
    let current = state.current();
    if current.kind == TokenKind::Variable {
        state.next();
        Ok(Variable { span: current.span, symbol: current.symbol })
    } else {
        Err(
            ParseError::ExpectedToken {
                expected: TokenKind::Variable,
                found: current.kind,
                position: current.span,
            },
        )
    }
}

/// The block sub-parser: collects leaf statements until the terminator
/// token or end-of-input.  The stopping token is not consumed.
pub fn statements_until(state: &mut State, terminator: TokenKind) -> (r: Vec<Statement>)
    requires
        old(state).wf(),
    ensures
        final(state).wf(),
        final(state).tokens@ == old(state).tokens@,
        old(state).position <= final(state).position,
        spec_statements_until(old(state).tokens@, old(state).position as int, terminator, Seq::empty())
            == (r@, final(state).position as int),
{
    let ghost t = state.tokens@;
    let ghost p0 = state.position as int;
    let mut statements: Vec<Statement> = Vec::new();
    loop
        invariant
            state.wf(),
            state.tokens@ == t,
            p0 <= state.position as int,
            spec_statements_until(t, p0, terminator, Seq::empty()) == spec_statements_until(
                t,
                state.position as int,
                terminator,
                statements@,
            ),
        ensures
            state.wf(),
            state.tokens@ == t,
            p0 <= state.position as int,
            spec_statements_until(t, p0, terminator, Seq::empty()) == (statements@, state.position as int),
        decreases t.len() - state.position,
    {
        let current = state.current();
        if current.kind == terminator || current.kind == TokenKind::Eof {
            break;
        }
        statements.push(Statement { token: current });
        state.next();
    }
    statements
}

/// The catch-type parser: one qualified name, or — when a pipe follows —
/// a union of names, collected while the pipe keeps reappearing.
/// End-of-input is checked before each additional name, so a truncated
/// stream terminates the union instead of failing; a union therefore
/// holds at least two names unless end-of-input cut it short.
pub fn catch_type(state: &mut State) -> (r: ParseResult<CatchType>)
    requires
        old(state).wf(),
    ensures
        final(state).wf(),
        final(state).tokens@ == old(state).tokens@,
        old(state).position <= final(state).position,
        ({
            let step = spec_catch_type(old(state).tokens@, old(state).position as int);
            match r {
                Ok(ct) => step == Ok::<(CatchTypeV, int), ParseError>((ct@, final(state).position as int)),
                Err(e) => step == Err::<(CatchTypeV, int), ParseError>(e),
            }
        }),
{
    let ghost t = state.tokens@;
    let ghost p0 = state.position as int;
    let id = match full_name(state) {
        Ok(id) => id,
        Err(e) => {
            return Err(e);
        },
    };

    if state.current().kind == TokenKind::Pipe {
        state.next();

        let mut types: Vec<Identifier> = Vec::new();
        types.push(id);
        proof {
            assert(types@ =~= seq![id]);
        }

        loop
            invariant_except_break
                ({
                    let tail = spec_union_rest(t, state.position as int, types@);
                    spec_catch_type(t, p0) == (match tail {
                        Ok((ids, q)) => Ok::<(CatchTypeV, int), ParseError>(
                            (CatchTypeV::Union { identifiers: ids }, q),
                        ),
                        Err(e) => Err::<(CatchTypeV, int), ParseError>(e),
                    })
                }),
            invariant
                state.wf(),
                state.tokens@ == t,
                t == old(state).tokens@,
                p0 == old(state).position as int,
                p0 <= state.position as int,
                types@.len() >= 1,
            ensures
                state.wf(),
                state.tokens@ == t,
                p0 <= state.position as int,
                spec_catch_type(t, p0) == Ok::<(CatchTypeV, int), ParseError>(
                    (CatchTypeV::Union { identifiers: types@ }, state.position as int),
                ),
            decreases t.len() - state.position,
        {
            if state.is_eof() {
                break;
            }

            let next_id = match full_name(state) {
                Ok(x) => x,
                Err(e) => {
                    return Err(e);
                },
            };
            types.push(next_id);

            if state.current().kind != TokenKind::Pipe {
                break;
            }

            state.next();
        }

        return Ok(CatchType::Union { identifiers: types });
    }

    Ok(CatchType::Identifier { identifier: id })
}

/// The try-statement parser.  The cursor must stand on the `try` keyword;
/// on success the whole `try` / `catch` / `finally` construct is consumed
/// and returned as one immutable node, whose value — spans included — is
/// exactly [`spec_try_block`] of the token sequence.  On failure the
/// construct is abandoned with the error that [`spec_try_block`] gives,
/// and no partial node is produced.  The cursor only ever moves forward.
pub fn try_block(state: &mut State) -> (r: ParseResult<StatementKind>)
    requires
        old(state).wf(),
        old(state).cur().kind == TokenKind::Try,
    ensures
        final(state).wf(),
        final(state).tokens@ == old(state).tokens@,
        old(state).position <= final(state).position,
        ({
            let step = spec_try_block(old(state).tokens@, old(state).position as int);
            match r {
                Ok(stmt) => (match stmt {
                    StatementKind::Try(ts) => step == Ok::<(TryStatementV, int), ParseError>(
                        (ts@, final(state).position as int),
                    ),
                }),
                Err(e) => step == Err::<(TryStatementV, int), ParseError>(e),
            }
        }),
{
    let ghost t = state.tokens@;
    let ghost p0 = state.position as int;

    let start = state.current().span;
    state.next();

    match skip(state, TokenKind::LeftBrace) {
        Ok(_) => {},
        Err(e) => {
            return Err(e);
        },
    }

    let body = statements_until(state, TokenKind::RightBrace);

    let last_right_brace = match skip(state, TokenKind::RightBrace) {
        Ok(sp) => sp,
        Err(e) => {
            return Err(e);
        },
    };

    let ghost p4 = state.position as int;
    let mut catches: Vec<CatchBlock> = Vec::new();
    proof {
        assert(catch_blocks_view(catches@) =~= Seq::<CatchBlockV>::empty());
    }

    loop
        invariant
            state.wf(),
            state.tokens@ == t,
            t == old(state).tokens@,
            p0 == old(state).position as int,
            p0 <= state.position as int,
            ({
                let rest = spec_catches(t, state.position as int, catch_blocks_view(catches@));
                spec_try_block(t, p0) == (match rest {
                    Err(e) => Err::<(TryStatementV, int), ParseError>(e),
                    Ok((cs, p5)) => (match spec_finally(t, p5) {
                        Err(e) => Err::<(TryStatementV, int), ParseError>(e),
                        Ok((fin, p6)) => (if cs.len() == 0 && fin is None {
                            Err::<(TryStatementV, int), ParseError>(
                                ParseError::UnimplementedTolerantPath { start, end: last_right_brace },
                            )
                        } else {
                            Ok::<(TryStatementV, int), ParseError>(
                                (
                                    TryStatementV {
                                        start,
                                        end: t[p6].span,
                                        body: body@,
                                        catches: cs,
                                        finally: fin,
                                    },
                                    p6,
                                ),
                            )
                        }),
                    }),
                })
            }),
        ensures
            state.wf(),
            state.tokens@ == t,
            p0 <= state.position as int,
            ({
                let cs = catch_blocks_view(catches@);
                spec_try_block(t, p0) == (match spec_finally(t, state.position as int) {
                    Err(e) => Err::<(TryStatementV, int), ParseError>(e),
                    Ok((fin, p6)) => (if cs.len() == 0 && fin is None {
                        Err::<(TryStatementV, int), ParseError>(
                            ParseError::UnimplementedTolerantPath { start, end: last_right_brace },
                        )
                    } else {
                        Ok::<(TryStatementV, int), ParseError>(
                            (
                                TryStatementV {
                                    start,
                                    end: t[p6].span,
                                    body: body@,
                                    catches: cs,
                                    finally: fin,
                                },
                                p6,
                            ),
                        )
                    }),
                })
            }),
        decreases t.len() - state.position,
    {
        if state.current().kind != TokenKind::Catch {
            break;
        }

        let ghost catches_at_entry = catch_blocks_view(catches@);
        let catch_start = state.current().span;

        state.next();
        match skip(state, TokenKind::LeftParen) {
            Ok(_) => {},
            Err(e) => {
                return Err(e);
            },
        }

        let types = match catch_type(state) {
            Ok(ty) => ty,
            Err(e) => {
                return Err(e);
            },
        };

        let var = if state.current().kind == TokenKind::RightParen {
            None
        } else {
            match simple_variable(state) {
                Ok(v) => Some(v),
                Err(e) => {
                    return Err(e);
                },
            }
        };

        match skip(state, TokenKind::RightParen) {
            Ok(_) => {},
            Err(e) => {
                return Err(e);
            },
        }
        match skip(state, TokenKind::LeftBrace) {
            Ok(_) => {},
            Err(e) => {
                return Err(e);
            },
        }

        let catch_body = statements_until(state, TokenKind::RightBrace);

        match skip(state, TokenKind::RightBrace) {
            Ok(_) => {},
            Err(e) => {
                return Err(e);
            },
        }

        let catch_end = state.current().span;

        let catch = CatchBlock {
            start: catch_start,
            end: catch_end,
            types,
            var,
            body: catch_body,
        };
        catches.push(catch);
        proof {
            assert(catch_blocks_view(catches@) =~= catches_at_entry.push(catch@));
        }
    }

    let ghost p5 = state.position as int;
    let mut finally: Option<FinallyBlock> = None;
    if state.current().kind == TokenKind::Finally {
        let finally_start = state.current().span;
        state.next();

        match skip(state, TokenKind::LeftBrace) {
            Ok(_) => {},
            Err(e) => {
                return Err(e);
            },
        }

        let finally_body = statements_until(state, TokenKind::RightBrace);

        match skip(state, TokenKind::RightBrace) {
            Ok(_) => {},
            Err(e) => {
                return Err(e);
            },
        }
        let finally_end = state.current().span;

        finally = Some(FinallyBlock { start: finally_start, end: finally_end, body: finally_body });
    }

    if catches.len() == 0 && finally.is_none() {
        return Err(ParseError::UnimplementedTolerantPath { start, end: last_right_brace });
    }

    let end = state.current().span;

    Ok(StatementKind::Try(TryStatement { start, end, body, catches, finally }))
}

} // verus!
