use vstd::prelude::*;
use crate::token::{Span, Token};

verus! {

/// A qualified type name, as it appears in a catch clause: the span of the
/// name token and its interned symbol.
#[derive(Clone, Copy, Debug, PartialEq, Eq, Structural)]
pub struct Identifier {
    pub span: Span,
    pub symbol: u32,
}

/// A variable reference, as bound by a catch clause (`$e`).
#[derive(Clone, Copy, Debug, PartialEq, Eq, Structural)]
pub struct Variable {
    pub span: Span,
    pub symbol: u32,
}

/// A leaf statement: one token, collected verbatim by the block
/// sub-parser.  The general statement dispatcher sits outside this
/// library, so block bodies are modelled as sequences of these leaves.
#[derive(Clone, Copy, Debug, PartialEq, Eq, Structural)]
pub struct Statement {
    pub token: Token,
}

/// The catch-type of one catch clause: a single name, or a union of names
/// separated by pipes (`A|B|C`).
#[derive(Clone, Debug, PartialEq, Eq)]
pub enum CatchType {
    Identifier { identifier: Identifier },
    Union { identifiers: Vec<Identifier> },
}

/// Mathematical value of a [`CatchType`].
pub enum CatchTypeV {
    Identifier { identifier: Identifier },
    Union { identifiers: Seq<Identifier> },
}

impl View for CatchType {
    type V = CatchTypeV;

    open spec fn view(&self) -> CatchTypeV {
        match self {
            CatchType::Identifier { identifier } => CatchTypeV::Identifier { identifier: *identifier },
            CatchType::Union { identifiers } => CatchTypeV::Union { identifiers: identifiers@ },
        }
    }
}

/// One catch clause: its span endpoints, the types it matches, the
/// optionally bound variable, and its body.
#[derive(Clone, Debug, PartialEq, Eq)]
pub struct CatchBlock {
    pub start: Span,
    pub end: Span,
    pub types: CatchType,
    pub var: Option<Variable>,
    pub body: Vec<Statement>,
}

/// Mathematical value of a [`CatchBlock`].
pub struct CatchBlockV {
    pub start: Span,
    pub end: Span,
    pub types: CatchTypeV,
    pub var: Option<Variable>,
    pub body: Seq<Statement>,
}

impl View for CatchBlock {
    type V = CatchBlockV;

    open spec fn view(&self) -> CatchBlockV {
        CatchBlockV {
            start: self.start,
            end: self.end,
            types: self.types@,
            var: self.var,
            body: self.body@,
        }
    }
}

/// The trailing `finally { ... }` block of a try statement.
#[derive(Clone, Debug, PartialEq, Eq)]
pub struct FinallyBlock {
    pub start: Span,
    pub end: Span,
    pub body: Vec<Statement>,
}

/// Mathematical value of a [`FinallyBlock`].
pub struct FinallyBlockV {
    pub start: Span,
    pub end: Span,
    pub body: Seq<Statement>,
}

impl View for FinallyBlock {
    type V = FinallyBlockV;

    open spec fn view(&self) -> FinallyBlockV {
        FinallyBlockV { start: self.start, end: self.end, body: self.body@ }
    }
}

/// A whole `try` / `catch` / `finally` construct.  The catch clauses keep
/// their source order.  `end` records the span of the token immediately
/// following the construct, not of its own last token — an exact
/// positional convention that tooling may depend on.
#[derive(Clone, Debug, PartialEq, Eq)]
pub struct TryStatement {
    pub start: Span,
    pub end: Span,
    pub body: Vec<Statement>,
    pub catches: Vec<CatchBlock>,
    pub finally: Option<FinallyBlock>,
}

/// Mathematical value of a [`TryStatement`].
pub struct TryStatementV {
    pub start: Span,
    pub end: Span,
    pub body: Seq<Statement>,
    pub catches: Seq<CatchBlockV>,
    pub finally: Option<FinallyBlockV>,
}

/// The mathematical values of a sequence of catch clauses.
pub open spec fn catch_blocks_view(catches: Seq<CatchBlock>) -> Seq<CatchBlockV> {
    catches.map_values(|c: CatchBlock| c@)
}

/// The mathematical value of an optional finally block.
pub open spec fn finally_view(finally: Option<FinallyBlock>) -> Option<FinallyBlockV> {
    match finally {
        Some(f) => Some(f@),
        None => None,
    }
}

impl View for TryStatement {
    type V = TryStatementV;

    open spec fn view(&self) -> TryStatementV {
        TryStatementV {
            start: self.start,
            end: self.end,
            body: self.body@,
            catches: catch_blocks_view(self.catches@),
            finally: finally_view(self.finally),
        }
    }
}

/// The statement alternatives this library can hand back to a caller's
/// statement-sequence builder.
#[derive(Clone, Debug, PartialEq, Eq)]
pub enum StatementKind {
    Try(TryStatement),
}

} // verus!
