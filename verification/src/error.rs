use vstd::prelude::*;
use crate::token::{Span, TokenKind};

verus! {

/// The ways a parse of an exception-handling construct can fail.
///
/// Any failure aborts the whole construct immediately: no partial node is
/// produced, and the caller decides what to do with the diagnostic.
#[derive(Clone, Copy, Debug, PartialEq, Eq, Structural)]
pub enum ParseError {
    /// A required punctuation or variable token is missing.
    ExpectedToken { expected: TokenKind, found: TokenKind, position: Span },
    /// An invalid name segment inside identifier or catch-type parsing.
    MalformedIdentifier { found: TokenKind, position: Span },
    /// A `try` with neither a `catch` clause nor a `finally` block.  A
    /// tolerant parsing mode would turn this into a recoverable
    /// diagnostic; until that exists the case is reported under this
    /// explicit name so callers can tell it apart from an ordinary parse
    /// error.  `start` is the span of the `try` keyword, `end` the span of
    /// the brace that closed its body.
    UnimplementedTolerantPath { start: Span, end: Span },
}

pub type ParseResult<T> = Result<T, ParseError>;

} // verus!
