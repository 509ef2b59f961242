use sql_dialect::dialect::duckdb::DuckDbDialect;
use sql_dialect::dialect::Dialect;

#[test]
fn identifier_start_accepts_letters_and_underscore() {
    let d = DuckDbDialect;
    assert!(d.is_identifier_start('a'));
    assert!(d.is_identifier_start('z'));
    assert!(d.is_identifier_start('A'));
    assert!(d.is_identifier_start('Z'));
    assert!(d.is_identifier_start('_'));
}

#[test]
fn identifier_start_rejects_digits_dollar_and_punctuation() {
    let d = DuckDbDialect;
    assert!(!d.is_identifier_start('0'));
    assert!(!d.is_identifier_start('3'));
    assert!(!d.is_identifier_start('9'));
    assert!(!d.is_identifier_start('$'));
    assert!(!d.is_identifier_start(' '));
    assert!(!d.is_identifier_start('.'));
    assert!(!d.is_identifier_start('('));
    assert!(!d.is_identifier_start(':'));
}

#[test]
fn identifier_part_accepts_letters_digits_dollar_and_underscore() {
    let d = DuckDbDialect;
    assert!(d.is_identifier_part('a'));
    assert!(d.is_identifier_part('Z'));
    assert!(d.is_identifier_part('0'));
    assert!(d.is_identifier_part('9'));
    assert!(d.is_identifier_part('$'));
    assert!(d.is_identifier_part('_'));
}

#[test]
fn identifier_part_rejects_other_characters() {
    let d = DuckDbDialect;
    assert!(!d.is_identifier_part(' '));
    assert!(!d.is_identifier_part('.'));
    assert!(!d.is_identifier_part('('));
    assert!(!d.is_identifier_part(':'));
    assert!(!d.is_identifier_part('+'));
}

#[test]
fn non_ascii_alphabetic_is_identifier_start_and_part() {
    // U+00E9, Latin small letter e with acute: alphabetic is decided over the
    // full character set, so non-ASCII letters are identifier characters.
    let d = DuckDbDialect;
    assert!(d.is_identifier_start('\u{00e9}'));
    assert!(d.is_identifier_part('\u{00e9}'));
}

#[test]
fn digit_is_part_but_not_start() {
    let d = DuckDbDialect;
    assert!(!d.is_identifier_start('3'));
    assert!(d.is_identifier_part('3'));
}

#[test]
fn ascii_digit_matches_the_decimal_digits() {
    for c in ['0', '5', '9'] {
        assert!(sql_dialect::characters::ascii_digit(c));
    }
    for c in ['a', 'Z', '_', '$', ' ', '/'] {
        assert!(!sql_dialect::characters::ascii_digit(c));
    }
}
