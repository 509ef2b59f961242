//! The slice of parser state the dialect layer sees: a token stream with a
//! cursor, read through one-token lookahead.

use crate::tokenizer::Token;
use vstd::prelude::*;

verus! {

/// An error raised while parsing.
///
/// The dialect layer never inspects one; it only carries one outward when
/// precedence resolution discovers malformed input.
#[derive(Debug, Clone, PartialEq, Eq)]
pub struct ParserError {
    /// What went wrong, for the host to report.
    pub message: String,
}

/// The parser state a dialect may consult: the tokens of the current session
/// and the position of the next unconsumed one.
///
/// A dialect receives it by shared reference, so a precedence hook can peek at
/// the lookahead but cannot advance or otherwise mutate the stream.
pub struct Parser {
    tokens: Vec<Token>,
    index: usize,
}

impl Parser {
    /// The session's token stream.
    pub closed spec fn stream(&self) -> Seq<Token> {
        self.tokens@
    }

    /// The position of the next unconsumed token in the stream.
    pub closed spec fn position(&self) -> int {
        self.index as int
    }

    /// The lookahead: the next unconsumed token, or `Token::EOF` once the
    /// stream is exhausted.
    pub open spec fn spec_peek(&self) -> Token {
        if self.position() < self.stream().len() {
            self.stream()[self.position()]
        } else {
            Token::EOF
        }
    }

    /// Starts a session on the given tokens, with nothing consumed yet.
    pub fn new(tokens: Vec<Token>) -> (p: Parser)
        ensures
            p.stream() == tokens@,
            p.position() == 0,
    {
        Parser { tokens, index: 0 }
    }

    /// Returns the lookahead token without consuming it.
    pub fn peek_token(&self) -> (t: Token)
        ensures
            t == self.spec_peek(),
    {
        if self.index < self.tokens.len() {
            self.tokens[self.index]
        } else {
            Token::EOF
        }
    }

    /// Returns the lookahead token and advances past it; at end of input it
    /// returns `Token::EOF` and stays put.
    pub fn next_token(&mut self) -> (t: Token)
        ensures
            t == old(self).spec_peek(),
            final(self).stream() == old(self).stream(),
            old(self).position() < old(self).stream().len() ==> final(self).position() == old(
                self,
            ).position() + 1,
            old(self).position() >= old(self).stream().len() ==> final(self).position() == old(
                self,
            ).position(),
    {
        if self.index < self.tokens.len() {
            let t = self.tokens[self.index];
            self.index = self.index + 1;
            t
        } else {
            Token::EOF
        }
    }
}

} // verus!
