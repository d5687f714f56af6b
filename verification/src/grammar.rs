use vstd::prelude::*;
use crate::ast::{CatchBlockV, CatchTypeV, FinallyBlockV, Identifier, Statement, TryStatementV, Variable};
use crate::error::ParseError;
use crate::token::{Span, Token, TokenKind};

verus! {

/// What consuming one expected punctuation token yields: its span and the
/// position after it, or the diagnostic for the token found instead.
pub open spec fn spec_skip(t: Seq<Token>, pos: int, kind: TokenKind) -> Result<(Span, int), ParseError> {
    if 0 <= pos < t.len() && t[pos].kind == kind {
        Ok((t[pos].span, pos + 1))
    } else {
        Err(ParseError::ExpectedToken { expected: kind, found: t[pos].kind, position: t[pos].span })
    }
}

/// What parsing one qualified name yields.
pub open spec fn spec_full_name(t: Seq<Token>, pos: int) -> Result<(Identifier, int), ParseError> {
    if 0 <= pos < t.len() && t[pos].kind == TokenKind::Identifier {
        Ok((Identifier { span: t[pos].span, symbol: t[pos].symbol }, pos + 1))
    } else {
        Err(ParseError::MalformedIdentifier { found: t[pos].kind, position: t[pos].span })
    }
}

/// What parsing one bound variable yields.
pub open spec fn spec_simple_variable(t: Seq<Token>, pos: int) -> Result<(Variable, int), ParseError> {
    if 0 <= pos < t.len() && t[pos].kind == TokenKind::Variable {
        Ok((Variable { span: t[pos].span, symbol: t[pos].symbol }, pos + 1))
    } else {
        Err(
            ParseError::ExpectedToken {
                expected: TokenKind::Variable,
                found: t[pos].kind,
                position: t[pos].span,
            },
        )
    }
}

/// What the block sub-parser yields: the leaf statements collected after
/// `acc` until the terminator or end-of-input, and the position of the
/// token that stopped it (which is not consumed).
pub open spec fn spec_statements_until(
    t: Seq<Token>,
    pos: int,
    terminator: TokenKind,
    acc: Seq<Statement>,
) -> (Seq<Statement>, int)
    decreases t.len() - pos,
{
    if 0 <= pos < t.len() && t[pos].kind != terminator && t[pos].kind != TokenKind::Eof {
        spec_statements_until(t, pos + 1, terminator, acc.push(Statement { token: t[pos] }))
    } else {
        (acc, pos)
    }
}

/// What the pipe-separated tail of a catch-type union yields, continuing
/// after `acc`: the cursor stands right after a pipe, and "name then
/// pipe" is consumed while the pipe keeps reappearing.  End-of-input is
/// checked before each additional name, so a truncated stream ends the
/// union silently rather than looping or failing.
pub open spec fn spec_union_rest(
    t: Seq<Token>,
    pos: int,
    acc: Seq<Identifier>,
) -> Result<(Seq<Identifier>, int), ParseError>
    decreases t.len() - pos,
{
    if !(0 <= pos < t.len()) || t[pos].kind == TokenKind::Eof {
        Ok((acc, pos))
    } else {
        match spec_full_name(t, pos) {
            Err(e) => Err(e),
            Ok((id, p)) => {
                if p < t.len() && t[p].kind == TokenKind::Pipe {
                    spec_union_rest(t, p + 1, acc.push(id))
                } else {
                    Ok((acc.push(id), p))
                }
            },
        }
    }
}

/// What parsing a catch-type expression yields: one qualified name, or a
/// union when a pipe follows the first name.
pub open spec fn spec_catch_type(t: Seq<Token>, pos: int) -> Result<(CatchTypeV, int), ParseError> {
    match spec_full_name(t, pos) {
        Err(e) => Err(e),
        Ok((id, p)) => {
            if p < t.len() && t[p].kind == TokenKind::Pipe {
                match spec_union_rest(t, p + 1, seq![id]) {
                    Err(e) => Err(e),
                    Ok((ids, q)) => Ok((CatchTypeV::Union { identifiers: ids }, q)),
                }
            } else {
                Ok((CatchTypeV::Identifier { identifier: id }, p))
            }
        },
    }
}

/// The result of the block sub-parser never moves the cursor backwards.
pub proof fn lemma_statements_until_ge(t: Seq<Token>, pos: int, terminator: TokenKind, acc: Seq<Statement>)
    ensures
        spec_statements_until(t, pos, terminator, acc).1 >= pos,
    decreases t.len() - pos,
{
    if 0 <= pos < t.len() && t[pos].kind != terminator && t[pos].kind != TokenKind::Eof {
        lemma_statements_until_ge(t, pos + 1, terminator, acc.push(Statement { token: t[pos] }));
    }
}

/// A successfully parsed union tail never moves the cursor backwards.
pub proof fn lemma_union_rest_ge(t: Seq<Token>, pos: int, acc: Seq<Identifier>)
    ensures
        spec_union_rest(t, pos, acc) matches Ok(r) ==> r.1 >= pos,
    decreases t.len() - pos,
{
    if !(0 <= pos < t.len()) || t[pos].kind == TokenKind::Eof {
    } else {
        match spec_full_name(t, pos) {
            Err(e) => {},
            Ok((id, p)) => {
                if p < t.len() && t[p].kind == TokenKind::Pipe {
                    lemma_union_rest_ge(t, p + 1, acc.push(id));
                }
            },
        }
    }
}

/// A successfully parsed catch-type never moves the cursor backwards.
pub proof fn lemma_catch_type_ge(t: Seq<Token>, pos: int)
    ensures
        spec_catch_type(t, pos) matches Ok(r) ==> r.1 >= pos,
{
    match spec_full_name(t, pos) {
        Err(e) => {},
        Ok((id, p)) => {
            if p < t.len() && t[p].kind == TokenKind::Pipe {
                lemma_union_rest_ge(t, p + 1, seq![id]);
            }
        },
    }
}

/// What the catch-clause loop yields, continuing after `acc`: one
/// [`CatchBlockV`] per `catch` keyword under the cursor, in source order,
/// and the position of the first token that is not part of a catch
/// clause.  Each clause's `end` span is the span of the token immediately
/// following it.
pub open spec fn spec_catches(
    t: Seq<Token>,
    pos: int,
    acc: Seq<CatchBlockV>,
) -> Result<(Seq<CatchBlockV>, int), ParseError>
    decreases t.len() - pos,
{
    if !(0 <= pos < t.len()) || t[pos].kind != TokenKind::Catch {
        Ok((acc, pos))
    } else {
        let catch_start = t[pos].span;
        match spec_skip(t, pos + 1, TokenKind::LeftParen) {
            Err(e) => Err(e),
            Ok((lp, p2)) => match spec_catch_type(t, p2) {
                Err(e) => Err(e),
                Ok((types, p3)) => {
                    let var_step: Result<(Option<Variable>, int), ParseError> = if 0 <= p3 < t.len()
                        && t[p3].kind == TokenKind::RightParen {
                        Ok((None, p3))
                    } else {
                        match spec_simple_variable(t, p3) {
                            Err(e) => Err(e),
                            Ok((v, p)) => Ok((Some(v), p)),
                        }
                    };
                    match var_step {
                        Err(e) => Err(e),
                        Ok((var, p4)) => match spec_skip(t, p4, TokenKind::RightParen) {
                            Err(e) => Err(e),
                            Ok((rp, p5)) => match spec_skip(t, p5, TokenKind::LeftBrace) {
                                Err(e) => Err(e),
                                Ok((lb, p6)) => {
                                    let body_step = spec_statements_until(
                                        t,
                                        p6,
                                        TokenKind::RightBrace,
                                        Seq::empty(),
                                    );
                                    match spec_skip(t, body_step.1, TokenKind::RightBrace) {
                                        Err(e) => Err(e),
                                        Ok((rb, p8)) => {
                                            proof {
                                                lemma_catch_type_ge(t, p2);
                                                lemma_statements_until_ge(
                                                    t,
                                                    p6,
                                                    TokenKind::RightBrace,
                                                    Seq::empty(),
                                                );
                                            }
                                            spec_catches(
                                                t,
                                                p8,
                                                acc.push(
                                                    CatchBlockV {
                                                        start: catch_start,
                                                        end: t[p8].span,
                                                        types,
                                                        var,
                                                        body: body_step.0,
                                                    },
                                                ),
                                            )
                                        },
                                    }
                                },
                            },
                        },
                    }
                },
            },
        }
    }
}

/// A successfully parsed union tail grows the collected names, unless it
/// stopped at end-of-input before reading any.
proof fn lemma_union_rest_growth(t: Seq<Token>, pos: int, acc: Seq<Identifier>)
    ensures
        (match spec_union_rest(t, pos, acc) {
            Ok((ids, q)) => ids.len() > acc.len() || (ids == acc && (!(0 <= q < t.len())
                || t[q].kind == TokenKind::Eof)),
            Err(e) => true,
        }),
    decreases t.len() - pos,
{
    if !(0 <= pos < t.len()) || t[pos].kind == TokenKind::Eof {
    } else {
        match spec_full_name(t, pos) {
            Err(e) => {},
            Ok((id, p)) => {
                if p < t.len() && t[p].kind == TokenKind::Pipe {
                    lemma_union_rest_growth(t, p + 1, acc.push(id));
                }
            },
        }
    }
}

/// A union catch-type is only ever built after at least one pipe
/// separator was consumed, and it lists at least two names — except when
/// end-of-input cut the union short right after the first pipe, where the
/// one name read before the pipe stands alone.
pub proof fn lemma_union_shape(t: Seq<Token>, pos: int)
    ensures
        (match spec_catch_type(t, pos) {
            Ok((CatchTypeV::Union { identifiers }, q)) => t[pos + 1].kind == TokenKind::Pipe
                && (identifiers.len() >= 2 || (identifiers.len() == 1 && (!(0 <= q < t.len())
                || t[q].kind == TokenKind::Eof))),
            _ => true,
        }),
{
    match spec_full_name(t, pos) {
        Err(e) => {},
        Ok((id, p)) => {
            if p < t.len() && t[p].kind == TokenKind::Pipe {
                lemma_union_rest_growth(t, p + 1, seq![id]);
            }
        },
    }
}

/// The catch clauses keep their source order.  The clause loop only ever
/// appends: whatever has been collected when any number of further
/// clauses are parsed stays, unchanged and in place, a prefix of the
/// final list — so the list is never reordered.
pub proof fn lemma_catches_append_only(
    t: Seq<Token>,
    pos: int,
    acc: Seq<CatchBlockV>,
    cs: Seq<CatchBlockV>,
    p: int,
)
    requires
        spec_catches(t, pos, acc) == Ok::<(Seq<CatchBlockV>, int), ParseError>((cs, p)),
    ensures
        acc.len() <= cs.len(),
        cs.subrange(0, acc.len() as int) == acc,
    decreases t.len() - pos,
{
    if !(0 <= pos < t.len()) || t[pos].kind != TokenKind::Catch {
        assert(cs.subrange(0, acc.len() as int) =~= acc);
    } else {
        match spec_skip(t, pos + 1, TokenKind::LeftParen) {
            Err(e) => {},
            Ok((lp, p2)) => match spec_catch_type(t, p2) {
                Err(e) => {},
                Ok((types, p3)) => {
                    let var_step: Result<(Option<Variable>, int), ParseError> = if 0 <= p3 < t.len()
                        && t[p3].kind == TokenKind::RightParen {
                        Ok((None, p3))
                    } else {
                        match spec_simple_variable(t, p3) {
                            Err(e) => Err(e),
                            Ok((v, q)) => Ok((Some(v), q)),
                        }
                    };
                    match var_step {
                        Err(e) => {},
                        Ok((var, p4)) => match spec_skip(t, p4, TokenKind::RightParen) {
                            Err(e) => {},
                            Ok((rp, p5)) => match spec_skip(t, p5, TokenKind::LeftBrace) {
                                Err(e) => {},
                                Ok((lb, p6)) => {
                                    let body_step = spec_statements_until(
                                        t,
                                        p6,
                                        TokenKind::RightBrace,
                                        Seq::empty(),
                                    );
                                    match spec_skip(t, body_step.1, TokenKind::RightBrace) {
                                        Err(e) => {},
                                        Ok((rb, p8)) => {
                                            lemma_catch_type_ge(t, p2);
                                            lemma_statements_until_ge(
                                                t,
                                                p6,
                                                TokenKind::RightBrace,
                                                Seq::empty(),
                                            );
                                            let catch = CatchBlockV {
                                                start: t[pos].span,
                                                end: t[p8].span,
                                                types,
                                                var,
                                                body: body_step.0,
                                            };
                                            lemma_catches_append_only(t, p8, acc.push(catch), cs, p);
                                            let n = acc.len() as int;
                                            assert forall|i: int| 0 <= i < n implies cs[i]
                                                == #[trigger] acc[i] by {
                                                assert(cs.subrange(0, n + 1)[i] == cs[i]);
                                                assert(acc.push(catch)[i] == acc[i]);
                                            }
                                            assert(cs.subrange(0, n) =~= acc);
                                        },
                                    }
                                },
                            },
                        },
                    }
                },
            },
        }
    }
}

/// What the optional `finally { ... }` tail yields: the block and the
/// position after it, or `None` with the cursor untouched when no
/// `finally` keyword is under it.  The block's `end` span is the span of
/// the token immediately following it.
pub open spec fn spec_finally(t: Seq<Token>, pos: int) -> Result<(Option<FinallyBlockV>, int), ParseError> {
    if !(0 <= pos < t.len()) || t[pos].kind != TokenKind::Finally {
        Ok((None, pos))
    } else {
        let finally_start = t[pos].span;
        match spec_skip(t, pos + 1, TokenKind::LeftBrace) {
            Err(e) => Err(e),
            Ok((lb, p2)) => {
                let body_step = spec_statements_until(t, p2, TokenKind::RightBrace, Seq::empty());
                match spec_skip(t, body_step.1, TokenKind::RightBrace) {
                    Err(e) => Err(e),
                    Ok((rb, p4)) => Ok(
                        (Some(FinallyBlockV { start: finally_start, end: t[p4].span, body: body_step.0 }), p4),
                    ),
                }
            },
        }
    }
}

/// What parsing a whole try construct yields, with the cursor on the
/// `try` keyword: the assembled node and the position after the
/// construct, or the first structural error.  A `try` with neither
/// catches nor a finally block is the explicitly unimplemented tolerant
/// path.  The node's `end` span is the span of the token immediately
/// following the construct.
pub open spec fn spec_try_block(t: Seq<Token>, pos: int) -> Result<(TryStatementV, int), ParseError> {
    let start = t[pos].span;
    match spec_skip(t, pos + 1, TokenKind::LeftBrace) {
        Err(e) => Err(e),
        Ok((lb, p2)) => {
            let body_step = spec_statements_until(t, p2, TokenKind::RightBrace, Seq::empty());
            match spec_skip(t, body_step.1, TokenKind::RightBrace) {
                Err(e) => Err(e),
                Ok((last_right_brace, p4)) => match spec_catches(t, p4, Seq::empty()) {
                    Err(e) => Err(e),
                    Ok((catches, p5)) => match spec_finally(t, p5) {
                        Err(e) => Err(e),
                        Ok((finally, p6)) => {
                            if catches.len() == 0 && finally is None {
                                Err(ParseError::UnimplementedTolerantPath { start, end: last_right_brace })
                            } else {
                                Ok(
                                    (
                                        TryStatementV {
                                            start,
                                            end: t[p6].span,
                                            body: body_step.0,
                                            catches,
                                            finally,
                                        },
                                        p6,
                                    ),
                                )
                            }
                        },
                    },
                },
            }
        },
    }
}

/// A parsed try statement never has both an empty catch list and an
/// absent finally block: that shape is turned away as the explicitly
/// unimplemented tolerant path before any node is built.
pub proof fn lemma_try_has_catch_or_finally(t: Seq<Token>, pos: int)
    ensures
        (match spec_try_block(t, pos) {
            Ok((ts, q)) => ts.catches.len() > 0 || ts.finally is Some,
            Err(e) => true,
        }),
{
}

} // verus!
