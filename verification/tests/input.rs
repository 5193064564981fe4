//! Tests of player-input classification.

use cyoa::input::{classify_input, InputResult};

#[test]
fn q_quits() {
    assert!(matches!(classify_input("q"), InputResult::Quit));
}

#[test]
fn q_with_surrounding_whitespace_quits() {
    assert!(matches!(classify_input("  q\n"), InputResult::Quit));
}

#[test]
fn a_plain_number_selects() {
    assert!(matches!(classify_input("2"), InputResult::Item(2)));
}

#[test]
fn a_number_with_whitespace_selects() {
    assert!(matches!(classify_input(" 17 \n"), InputResult::Item(17)));
}

#[test]
fn a_negative_number_is_parsed() {
    assert!(matches!(classify_input("-5"), InputResult::Item(-5)));
}

#[test]
fn a_plus_sign_is_accepted() {
    assert!(matches!(classify_input("+7"), InputResult::Item(7)));
}

#[test]
fn the_largest_values_parse_exactly() {
    assert!(matches!(
        classify_input("9223372036854775807"),
        InputResult::Item(i64::MAX)
    ));
    assert!(matches!(
        classify_input("-9223372036854775808"),
        InputResult::Item(i64::MIN)
    ));
}

#[test]
fn out_of_range_numbers_are_invalid() {
    assert!(matches!(
        classify_input("9223372036854775808"),
        InputResult::Invalid(_)
    ));
    assert!(matches!(
        classify_input("-9223372036854775809"),
        InputResult::Invalid(_)
    ));
}

#[test]
fn letters_are_invalid() {
    match classify_input(" abc \n") {
        InputResult::Invalid(raw) => assert_eq!(raw, "abc"),
        _ => panic!("expected invalid input"),
    }
}

#[test]
fn an_empty_line_is_invalid() {
    assert!(matches!(classify_input("\n"), InputResult::Invalid(_)));
}

#[test]
fn a_bare_sign_is_invalid() {
    assert!(matches!(classify_input("-"), InputResult::Invalid(_)));
}

#[test]
fn inner_whitespace_is_invalid() {
    assert!(matches!(classify_input("1 2"), InputResult::Invalid(_)));
}
