use pushover_api::text::{join, parse_i64, same_text};

fn strings(items: &[&str]) -> Vec<String> {
    items.iter().map(|item| item.to_string()).collect()
}

#[test]
fn join_of_nothing_is_empty() {
    assert_eq!(join(&strings(&[]), ", "), "");
}

#[test]
fn join_of_one_item_has_no_separator() {
    assert_eq!(join(&strings(&["invalid token"]), ", "), "invalid token");
}

#[test]
fn join_puts_the_separator_between_neighbours() {
    assert_eq!(join(&strings(&["a", "b", "c"]), ","), "a,b,c");
    assert_eq!(join(&strings(&["a", "b", "c"]), ", "), "a, b, c");
    assert_eq!(join(&strings(&["", ""]), "-"), "-");
    assert_eq!(join(&strings(&["x", "y"]), ""), "xy");
}

#[test]
fn join_agrees_with_the_standard_library() {
    let lists: [&[&str]; 5] = [&[], &["one"], &["one", "two"], &["", "b", ""], &["é", "ü", "日本"]];
    for list in lists {
        for separator in ["", ",", ", ", " – "] {
            assert_eq!(join(&strings(list), separator), list.join(separator));
        }
    }
}

#[test]
fn parse_i64_reads_plain_digits() {
    assert_eq!(parse_i64("0"), Some(0));
    assert_eq!(parse_i64("7"), Some(7));
    assert_eq!(parse_i64("1600000000"), Some(1_600_000_000));
    assert_eq!(parse_i64("007"), Some(7));
}

#[test]
fn parse_i64_reads_a_sign() {
    assert_eq!(parse_i64("-12"), Some(-12));
    assert_eq!(parse_i64("+12"), Some(12));
    assert_eq!(parse_i64("-0"), Some(0));
    assert_eq!(parse_i64("+0"), Some(0));
}

#[test]
fn parse_i64_reads_up_to_the_limits() {
    assert_eq!(parse_i64("9223372036854775807"), Some(i64::MAX));
    assert_eq!(parse_i64("-9223372036854775808"), Some(i64::MIN));
    assert_eq!(parse_i64("9223372036854775808"), None);
    assert_eq!(parse_i64("-9223372036854775809"), None);
    assert_eq!(parse_i64("99999999999999999999999999"), None);
    assert_eq!(parse_i64("00000000000000000000000000000001"), Some(1));
}

#[test]
fn parse_i64_refuses_what_is_no_integer() {
    for text in ["", "-", "+", "notanumber", "12a", "a12", " 12", "12 ", "1 2", "--1", "+-1", "1.0", "1e3", "0x10", "１２"] {
        assert_eq!(parse_i64(text), None, "{:?}", text);
    }
}

#[test]
fn parse_i64_agrees_with_the_standard_library() {
    for text in [
        "", "0", "-0", "+0", "5", "-5", "+5", "-", "+", "42", "0042", "-0042", "9223372036854775807",
        "9223372036854775808", "-9223372036854775808", "-9223372036854775809", "18446744073709551616",
        "abc", "1a", "a1", " 1", "1 ", "１", "٣", "1_000", "+ 1", "- 1", "1-", "1+",
    ] {
        assert_eq!(parse_i64(text), text.parse::<i64>().ok(), "{:?}", text);
    }
}

#[test]
fn same_text_compares_characters() {
    assert!(same_text("", ""));
    assert!(same_text("low", "low"));
    assert!(!same_text("low", "Low"));
    assert!(!same_text("low", "lo"));
    assert!(!same_text("lo", "low"));
    assert!(same_text("é", "é"));
}
