use sql_dialect::dialect::duckdb::DuckDbDialect;
use sql_dialect::dialect::{Dialect, PrecedenceOutcome};
use sql_dialect::parser::Parser;
use sql_dialect::tokenizer::Token;

#[test]
fn feature_flags_are_constant_across_calls() {
    let d = DuckDbDialect;
    let first_filter = d.supports_filter_during_aggregation();
    let second_filter = d.supports_filter_during_aggregation();
    assert!(first_filter);
    assert_eq!(first_filter, second_filter);
    let first_group = d.supports_group_by_expr();
    let second_group = d.supports_group_by_expr();
    assert!(first_group);
    assert_eq!(first_group, second_group);
}

#[test]
fn colon_lookahead_forces_override_zero() {
    let d = DuckDbDialect;
    let p = Parser::new(vec![Token::Colon, Token::Number]);
    assert_eq!(d.get_next_precedence(&p), PrecedenceOutcome::Override(0));
    // Peeking consumed nothing: the lookahead is unchanged and the answer
    // repeats.
    assert_eq!(p.peek_token(), Token::Colon);
    assert_eq!(d.get_next_precedence(&p), PrecedenceOutcome::Override(0));
}

#[test]
fn non_colon_lookahead_defers() {
    let d = DuckDbDialect;
    let others = [
        Token::Word,
        Token::Number,
        Token::SingleQuotedString,
        Token::Comma,
        Token::Plus,
        Token::LBrace,
        Token::RBrace,
        Token::EOF,
    ];
    for t in others {
        let p = Parser::new(vec![t]);
        assert_eq!(d.get_next_precedence(&p), PrecedenceOutcome::Defer);
    }
}

#[test]
fn end_of_input_defers() {
    let d = DuckDbDialect;
    let p = Parser::new(vec![]);
    assert_eq!(p.peek_token(), Token::EOF);
    assert_eq!(d.get_next_precedence(&p), PrecedenceOutcome::Defer);

    let mut exhausted = Parser::new(vec![Token::Colon]);
    exhausted.next_token();
    assert_eq!(exhausted.peek_token(), Token::EOF);
    assert_eq!(d.get_next_precedence(&exhausted), PrecedenceOutcome::Defer);
}
