//! Token identities, the only part of a lexical unit the dialect layer reads.

use vstd::prelude::*;

verus! {

/// A lexical unit as the shared tokenizer hands it to the parser.
///
/// The dialect layer only ever inspects a token's identity (for example,
/// whether the lookahead is the colon symbol), never its spelling, so the
/// variants carry no payload.
#[derive(Debug, Clone, Copy, PartialEq, Eq, Structural)]
pub enum Token {
    /// End of the token stream: peeking past the last token yields this.
    EOF,
    /// A bare word: a keyword or an identifier.
    Word,
    /// A numeric literal.
    Number,
    /// A single-quoted string literal.
    SingleQuotedString,
    /// The colon symbol `:`.
    Colon,
    /// The comma `,`.
    Comma,
    /// The plus sign `+`.
    Plus,
    /// The opening brace `{`.
    LBrace,
    /// The closing brace `}`.
    RBrace,
}

} // verus!
