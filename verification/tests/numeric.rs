//! Which text is a number, and which number it is.

use turso_udf::numeric::{numeric_affinity, parse_integer, take_digits, trim, NumericText};

#[test]
fn numeric_affinity_converts_only_complete_numbers() {
    assert!(matches!(
        numeric_affinity("12"),
        Some(NumericText::Integer(12))
    ));
    assert!(matches!(
        numeric_affinity(" -3 "),
        Some(NumericText::Integer(-3))
    ));
    assert!(matches!(numeric_affinity("1.5"), Some(NumericText::Real(_))));
    assert!(matches!(numeric_affinity("1e3"), Some(NumericText::Real(_))));
    assert!(matches!(numeric_affinity("5."), Some(NumericText::Real(_))));
    assert!(numeric_affinity("12abc").is_none());
    assert!(numeric_affinity("abc").is_none());
    assert!(numeric_affinity("").is_none());
    assert!(numeric_affinity("+").is_none());
    assert!(numeric_affinity("1e").is_none());
}

fn real_text(text: &str) -> String {
    match numeric_affinity(text) {
        Some(NumericText::Real(digits)) => digits,
        other => panic!("{text}: {other:?}"),
    }
}

fn integer(text: &str) -> i64 {
    match numeric_affinity(text) {
        Some(NumericText::Integer(i)) => i,
        other => panic!("{text}: {other:?}"),
    }
}

#[test]
fn white_space_around_a_number_does_not_count() {
    assert_eq!(integer("\t 12\r\n"), 12);
    assert_eq!(real_text(" 1.5e-3\n"), "1.5e-3");
    assert!(numeric_affinity("1 2").is_none());
    assert!(numeric_affinity(" ").is_none());
    assert!(numeric_affinity("\u{a0}1").is_none());
}

#[test]
fn integers_end_where_64_bits_do() {
    assert_eq!(integer("9223372036854775807"), i64::MAX);
    assert_eq!(integer("-9223372036854775808"), i64::MIN);
    assert_eq!(integer("+0007"), 7);
    assert_eq!(real_text("9223372036854775808"), "9223372036854775808");
    assert_eq!(real_text("-9223372036854775809"), "-9223372036854775809");
}

#[test]
fn a_point_needs_a_digit_on_one_side_and_an_exponent_one_of_its_own() {
    assert_eq!(real_text(".5"), ".5");
    assert_eq!(real_text("-5."), "-5.");
    assert_eq!(real_text("1E+2"), "1E+2");
    assert!(numeric_affinity(".").is_none());
    assert!(numeric_affinity("-.e1").is_none());
    assert!(numeric_affinity("1e+").is_none());
    assert!(numeric_affinity("1.2.3").is_none());
    assert!(numeric_affinity("--1").is_none());
}

#[test]
fn every_decimal_integer_reads_back() {
    for n in [0, 1, -1, 10, -10, 1234567890, i64::MAX, i64::MIN] {
        assert_eq!(integer(&n.to_string()), n);
    }
}

#[test]
fn digits_are_taken_up_to_the_first_other_character() {
    let chars: Vec<char> = "a123b".chars().collect();
    let mut at = 1;
    assert_eq!(take_digits(&chars, &mut at), 3);
    assert_eq!(at, 4);
    assert_eq!(take_digits(&chars, &mut at), 0);
    assert_eq!(at, 4);
    assert_eq!(trim(" x y\t").into_iter().collect::<String>(), "x y");
    let minus: Vec<char> = "-42".chars().collect();
    assert_eq!(parse_integer(&minus), Some(-42));
}
