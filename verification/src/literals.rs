use vstd::prelude::*;
use crate::token::Token;

verus! {

/// A scalar literal: a semantic classification paired with the original
/// token, so the raw lexical text survives for later re-parsing.  No
/// numeric validation or escape processing happens here; that is deferred
/// to a downstream consumer.
#[derive(Clone, Copy, Debug, PartialEq, Eq, Structural)]
pub struct Literal {
    pub kind: LiteralKind,
    pub token: Token,
}

impl Literal {
    pub fn new(kind: LiteralKind, token: Token) -> (literal: Literal)
        ensures
            literal.kind == kind,
            literal.token == token,
    {
        Literal { kind, token }
    }
}

/// The semantic classification of a scalar literal.
#[derive(Clone, Copy, Debug, PartialEq, Eq, Structural)]
pub enum LiteralKind {
    Integer,
    Float,
    String,
}

} // verus!
