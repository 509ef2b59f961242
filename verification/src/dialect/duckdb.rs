//! The DuckDB dialect, the reference implementation of [`Dialect`].

use crate::characters::{ascii_digit, is_ascii, is_ascii_digit, is_ascii_letter, unicode_alphabetic};
use crate::dialect::{Dialect, PrecedenceOutcome};
use crate::parser::Parser;
use crate::tokenizer::Token;
use vstd::prelude::*;

verus! {

/// A dialect for DuckDB.
#[derive(Debug, Default)]
pub struct DuckDbDialect;

impl Dialect for DuckDbDialect {
    /// Alphabetic characters and the underscore begin an identifier.
    open spec fn spec_is_identifier_start(&self, ch: char) -> bool {
        unicode_alphabetic(ch) || ch == '_'
    }

    /// Alphabetic characters, ASCII digits, the dollar sign and the
    /// underscore continue an identifier.
    open spec fn spec_is_identifier_part(&self, ch: char) -> bool {
        unicode_alphabetic(ch) || is_ascii_digit(ch) || ch == '$' || ch == '_'
    }

    open spec fn spec_supports_filter_during_aggregation(&self) -> bool {
        true
    }

    open spec fn spec_supports_group_by_expr(&self) -> bool {
        true
    }

    /// A colon in the lookahead forces precedence zero; every other token,
    /// end of input included, is left to the generic table.
    open spec fn spec_get_next_precedence(&self, next: Token) -> PrecedenceOutcome {
        if next == Token::Colon {
            PrecedenceOutcome::Override(0u8)
        } else {
            PrecedenceOutcome::Defer
        }
    }

    fn is_identifier_start(&self, ch: char) -> (r: bool)
        ensures
            is_ascii_digit(ch) ==> !r,
            ch == '$' ==> !r,
            is_ascii(ch) && !is_ascii_letter(ch) && ch != '_' ==> !r,
    {
        ch.is_alphabetic() || ch == '_'
    }

    fn is_identifier_part(&self, ch: char) -> (r: bool)
        ensures
            is_ascii(ch) && !is_ascii_letter(ch) && !is_ascii_digit(ch) && ch != '$' && ch != '_'
                ==> !r,
    {
        ch.is_alphabetic() || ascii_digit(ch) || ch == '$' || ch == '_'
    }

    fn supports_filter_during_aggregation(&self) -> (r: bool) {
        true
    }

    fn supports_group_by_expr(&self) -> (r: bool) {
        true
    }

    // While parsing the key of a map literal, MAP { 1: '1', 1+1: '2' }, the
    // generic precedence table would fold `key : value` into a single
    // JSON-access expression, a reading borrowed from another vendor's
    // JSON-path syntax. Overriding the colon's precedence to zero stops the
    // folding loop there, so the dedicated map-literal rule sees the colon as
    // a separator instead.
    fn get_next_precedence(&self, parser: &Parser) -> (r: PrecedenceOutcome) {
        if parser.peek_token() == Token::Colon {
            PrecedenceOutcome::Override(0u8)
        } else {
            PrecedenceOutcome::Defer
        }
    }
}

/// Law: the feature toggles are fixed for a session. Each query is pinned to
/// a spec function of the dialect value alone, so two calls on the same value
/// always agree; for DuckDB both toggles answer `true`.
pub proof fn lemma_feature_flags_constant(d: DuckDbDialect)
    ensures
        d.spec_supports_filter_during_aggregation(),
        d.spec_supports_group_by_expr(),
{
}

/// Law: whenever the lookahead token is the colon symbol, the precedence hook
/// overrides with precedence zero, whatever the rest of the parser state
/// holds. The hook takes the parser by shared reference, so it cannot consume
/// the lookahead it peeked at.
pub proof fn lemma_colon_overrides(d: DuckDbDialect, p: Parser)
    requires
        p.spec_peek() == Token::Colon,
    ensures
        d.spec_get_next_precedence(p.spec_peek()) == PrecedenceOutcome::Override(0u8),
{
}

/// Law: for every lookahead token other than the colon symbol, the precedence
/// hook defers to the generic table.
pub proof fn lemma_non_colon_defers(d: DuckDbDialect, next: Token)
    requires
        next != Token::Colon,
    ensures
        d.spec_get_next_precedence(next) == PrecedenceOutcome::Defer,
{
}

/// Law: at end of input the lookahead is `Token::EOF`, and the precedence
/// hook defers — a missing colon is not an error at this layer.
pub proof fn lemma_end_of_input_defers(d: DuckDbDialect, p: Parser)
    requires
        p.position() >= p.stream().len(),
    ensures
        p.spec_peek() == Token::EOF,
        d.spec_get_next_precedence(p.spec_peek()) == PrecedenceOutcome::Defer,
{
}

} // verus!
