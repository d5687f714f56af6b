use vstd::prelude::*;

verus! {

/// A source position range.  Every token carries one, and every AST node
/// records the spans that locate it for diagnostics and tooling.
#[derive(Clone, Copy, Debug, PartialEq, Eq, Structural)]
pub struct Span {
    pub start: u32,
    pub end: u32,
}

/// The kinds of lexical tokens the exception-handling grammar inspects.
/// `Other` stands for any token this grammar does not give a role to; the
/// block sub-parser collects such tokens as leaf statements.
#[derive(Clone, Copy, Debug, PartialEq, Eq, Structural)]
pub enum TokenKind {
    Try,
    Catch,
    Finally,
    LeftBrace,
    RightBrace,
    LeftParen,
    RightParen,
    Pipe,
    Identifier,
    Variable,
    Other,
    Eof,
}

/// An atomic lexical unit: a kind, the source span it covers, and an
/// interned symbol id that names the lexical text of identifier and
/// variable tokens (0 where the kind carries no name).
#[derive(Clone, Copy, Debug, PartialEq, Eq, Structural)]
pub struct Token {
    pub kind: TokenKind,
    pub span: Span,
    pub symbol: u32,
}

} // verus!
