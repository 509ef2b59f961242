//! A dialect capability layer for a shared SQL lexer and expression parser.
//!
//! A single tokenizer and Pratt-style expression parser serve several SQL
//! vendors. Everything vendor-specific is gathered behind one interface, the
//! [`dialect::Dialect`] trait: identifier character classification, boolean
//! feature toggles, and a hook that may override operator precedence from the
//! parser's lookahead. The parser consults one dialect value per session and
//! gets back plain values; no state flows the other way.
//!
//! [`dialect::duckdb::DuckDbDialect`] is the reference implementation.

pub mod characters;
pub mod dialect;
pub mod parser;
pub mod tokenizer;
