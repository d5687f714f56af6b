use vstd::prelude::*;
use crate::token::{Span, Token, TokenKind};

verus! {

/// The span given to the end-of-input token that [`State::new`] appends:
/// an empty range sitting right after the last real token.
pub open spec fn eof_span(tokens: Seq<Token>) -> Span {
    if tokens.len() == 0 {
        Span { start: 0, end: 0 }
    } else {
        Span { start: tokens.last().span.end, end: tokens.last().span.end }
    }
}

/// A sequential, forward-only cursor over a token sequence.
///
/// The cursor never runs past the end: the sequence always ends with an
/// end-of-input token, and once the cursor reaches it, [`State::next`]
/// leaves it there.  All parsing functions keep [`State::wf`].
pub struct State {
    pub tokens: Vec<Token>,
    pub position: usize,
}

impl State {
    /// Well-formedness: the sequence ends with an end-of-input token and
    /// the cursor points at some token.
    pub open spec fn wf(self) -> bool {
        &&& self.tokens@.len() > 0
        &&& self.tokens@.last().kind == TokenKind::Eof
        &&& self.position < self.tokens@.len()
    }

    /// The token under the cursor.
    pub open spec fn cur(self) -> Token {
        self.tokens@[self.position as int]
    }

    /// Builds a cursor over the given tokens, appending the end-of-input
    /// token that the stream invariant calls for.
    pub fn new(tokens: Vec<Token>) -> (s: State)
        ensures
            s.wf(),
            s.position == 0,
            s.tokens@ == tokens@.push(Token { kind: TokenKind::Eof, span: eof_span(tokens@), symbol: 0 }),
    {
        let eof_sp = if tokens.len() == 0 {
            Span { start: 0, end: 0 }
        } else {
            let last_end = tokens[tokens.len() - 1].span.end;
            Span { start: last_end, end: last_end }
        };
        let mut toks = tokens;
        toks.push(Token { kind: TokenKind::Eof, span: eof_sp, symbol: 0 });
        State { tokens: toks, position: 0 }
    }

    pub fn current(&self) -> (t: Token)
        requires
            self.wf(),
        ensures
            t == self.cur(),
    {
        self.tokens[self.position]
    }

    /// Advances the cursor one token, saturating at the end-of-input
    /// token.  Whenever the cursor is not yet at end-of-input, this is a
    /// plain step forward.
    pub fn next(&mut self)
        requires
            old(self).wf(),
        ensures
            final(self).wf(),
            final(self).tokens@ == old(self).tokens@,
            old(self).position + 1 < old(self).tokens@.len() ==> final(self).position == old(self).position + 1,
            old(self).position + 1 >= old(self).tokens@.len() ==> final(self).position == old(self).position,
            old(self).cur().kind != TokenKind::Eof ==> final(self).position == old(self).position + 1,
    {
        proof {
            if self.cur().kind != TokenKind::Eof {
                assert(self.position as int != self.tokens@.len() - 1);
            }
        }
        let n: usize = self.tokens.len();
        if self.position < n - 1 {
            self.position = self.position + 1;
        }
    }

    pub fn is_eof(&self) -> (b: bool)
        requires
            self.wf(),
        ensures
            b == (self.cur().kind == TokenKind::Eof),
    {
        self.tokens[self.position].kind == TokenKind::Eof
    }
}

} // verus!
