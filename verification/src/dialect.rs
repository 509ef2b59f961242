//! The dialect capability interface: everything vendor-specific the shared
//! lexer and parser consult, bundled behind one trait.

use crate::parser::{Parser, ParserError};
use crate::tokenizer::Token;
use vstd::prelude::*;

pub mod duckdb;

verus! {

/// The three-way outcome of a dialect's precedence hook.
///
/// The generic expression parser asks the dialect before its own precedence
/// lookup at every point where it decides whether to keep folding operators
/// into the current expression.
#[derive(Debug, Clone, PartialEq, Eq)]
pub enum PrecedenceOutcome {
    /// The dialect has no opinion: the parser computes precedence from its own
    /// default table.
    Defer,
    /// The dialect supplies the precedence to use instead of the generic
    /// computation. Lower binds weaker; zero stops the folding loop outright.
    Override(u8),
    /// The dialect saw from the lookahead alone that the input cannot be
    /// valid: the parser must abort with this error.
    Fail(ParserError),
}

/// A vendor's bundle of parsing and lexing policy.
///
/// A dialect value is chosen once per parsing session and consulted read-only
/// thereafter. Every operation is a pure function of its inputs: each exec
/// method is pinned to a spec function of the dialect value and, for the
/// precedence hook, of the lookahead token alone, so a dialect can neither
/// keep hidden state nor mutate the token stream.
pub trait Dialect {
    /// Whether `ch` may begin an identifier under this dialect.
    spec fn spec_is_identifier_start(&self, ch: char) -> bool;

    /// Whether `ch` may continue an identifier under this dialect.
    spec fn spec_is_identifier_part(&self, ch: char) -> bool;

    /// Whether a `FILTER (...)` modifier is accepted after an aggregate call.
    spec fn spec_supports_filter_during_aggregation(&self) -> bool;

    /// Whether arbitrary expressions are accepted as `GROUP BY` items.
    spec fn spec_supports_group_by_expr(&self) -> bool;

    /// What the precedence hook answers when the lookahead is `next`.
    spec fn spec_get_next_precedence(&self, next: Token) -> PrecedenceOutcome;

    /// Called by the scanner when the current character may begin an
    /// identifier token. Total: classification never fails.
    fn is_identifier_start(&self, ch: char) -> (r: bool)
        ensures
            r == self.spec_is_identifier_start(ch),
    ;

    /// Called by the scanner for each further character while an identifier
    /// is being accumulated. Total: classification never fails.
    fn is_identifier_part(&self, ch: char) -> (r: bool)
        ensures
            r == self.spec_is_identifier_part(ch),
    ;

    /// Queried by the parser before it parses a `FILTER (...)` modifier on an
    /// aggregate. Constant within a session: the answer depends on the
    /// dialect value alone.
    fn supports_filter_during_aggregation(&self) -> (r: bool)
        ensures
            r == self.spec_supports_filter_during_aggregation(),
    ;

    /// Queried by the parser before it parses an expression as a `GROUP BY`
    /// item. Constant within a session: the answer depends on the dialect
    /// value alone.
    fn supports_group_by_expr(&self) -> (r: bool)
        ensures
            r == self.spec_supports_group_by_expr(),
    ;

    /// Run before the generic precedence lookup wherever the expression
    /// parser decides whether to keep folding operators. The shared reference
    /// lets the dialect peek at the lookahead but not advance the stream, and
    /// the answer is a function of that one peeked token.
    fn get_next_precedence(&self, parser: &Parser) -> (r: PrecedenceOutcome)
        ensures
            r == self.spec_get_next_precedence(parser.spec_peek()),
    ;
}

} // verus!
