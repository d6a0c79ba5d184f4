use chat_backend::counter::{next_count, next_visit, parse_count};

#[test]
fn plain_numbers_are_read() {
    assert_eq!(parse_count("0"), Some(0));
    assert_eq!(parse_count("7"), Some(7));
    assert_eq!(parse_count("42"), Some(42));
    assert_eq!(parse_count("1234567890"), Some(1234567890));
}

#[test]
fn signs_are_read() {
    assert_eq!(parse_count("+5"), Some(5));
    assert_eq!(parse_count("-5"), Some(-5));
    assert_eq!(parse_count("-0"), Some(0));
    assert_eq!(parse_count("+0"), Some(0));
}

#[test]
fn leading_zeros_count_for_nothing() {
    assert_eq!(parse_count("007"), Some(7));
    assert_eq!(parse_count("-000000000000000000012"), Some(-12));
    assert_eq!(parse_count("00000000000000000000000000000000002147483647"), Some(2147483647));
}

#[test]
fn the_range_is_that_of_32_bits() {
    assert_eq!(parse_count("2147483647"), Some(i32::MAX));
    assert_eq!(parse_count("2147483648"), None);
    assert_eq!(parse_count("+2147483647"), Some(i32::MAX));
    assert_eq!(parse_count("+2147483648"), None);
    assert_eq!(parse_count("-2147483648"), Some(i32::MIN));
    assert_eq!(parse_count("-2147483649"), None);
    assert_eq!(parse_count("99999999999999999999999999999999"), None);
    assert_eq!(parse_count("-99999999999999999999999999999999"), None);
    assert_eq!(parse_count("21474836470"), None);
}

#[test]
fn anything_else_is_no_number() {
    for text in [
        "", "+", "-", "+-1", "--1", "++1", "1+", "1-", " 1", "1 ", "1 2", "1_000", "0x10", "1.0", "1e3",
        "abc", "12a", "a12", "\u{661}", "1\u{661}", "\u{ff11}", "é", "-é", "١٢٣", "\t5", "5\n", "٣",
    ] {
        assert_eq!(parse_count(text), None, "{:?}", text);
    }
}

#[test]
fn reading_agrees_with_the_standard_library() {
    let mut texts: Vec<String> = Vec::new();
    for sign in ["", "+", "-", " ", "x"] {
        for zeros in ["", "0", "000"] {
            for digits in [
                "", "1", "9", "10", "99", "2147483646", "2147483647", "2147483648", "2147483649",
                "4294967296", "21474836480", "1a", "a", "-", "+", "1 ", "12345678901234567890",
            ] {
                for tail in ["", " ", "0", "\u{7f}", "\u{80}", "９"] {
                    texts.push(format!("{}{}{}{}", sign, zeros, digits, tail));
                }
            }
        }
    }
    assert!(texts.len() > 1000);
    for text in texts {
        assert_eq!(parse_count(&text), text.parse::<i32>().ok(), "{:?}", text);
    }
    for number in [-2147483648i64, -2147483647, -1000, -1, 0, 1, 65535, 2147483646, 2147483647] {
        assert_eq!(parse_count(&number.to_string()), Some(number as i32));
    }
}

#[test]
fn counts_are_raised_by_one() {
    assert_eq!(next_count(0), Some(1));
    assert_eq!(next_count(41), Some(42));
    assert_eq!(next_count(-1), Some(0));
    assert_eq!(next_count(i32::MIN), Some(i32::MIN + 1));
    assert_eq!(next_count(i32::MAX - 1), Some(i32::MAX));
    assert_eq!(next_count(i32::MAX), None);
}

#[test]
fn first_visit_counts_nought() {
    assert_eq!(next_visit(None), Some(0));
}

#[test]
fn later_visits_count_one_more() {
    assert_eq!(next_visit(Some("0")), Some(1));
    assert_eq!(next_visit(Some("41")), Some(42));
    assert_eq!(next_visit(Some("-3")), Some(-2));
    assert_eq!(next_visit(Some("2147483646")), Some(2147483647));
}

#[test]
fn a_cookie_that_is_no_number_counts_as_nought() {
    assert_eq!(next_visit(Some("")), Some(1));
    assert_eq!(next_visit(Some("many")), Some(1));
    assert_eq!(next_visit(Some("2147483648")), Some(1));
    assert_eq!(next_visit(Some(" 4")), Some(1));
}

#[test]
fn the_largest_count_has_no_successor() {
    assert_eq!(next_visit(Some("2147483647")), None);
}
