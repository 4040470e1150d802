use kogan::text::{i64_to_decimal, join_strings, str_eq, to_ascii_lowercase, u64_to_decimal};
use kogan::translate::{capitalize, capitalize_lowered};

#[test]
fn decimal_of_zero_and_numbers() {
    assert_eq!(u64_to_decimal(0), "0");
    assert_eq!(u64_to_decimal(7), "7");
    assert_eq!(u64_to_decimal(10), "10");
    assert_eq!(u64_to_decimal(1234567890), "1234567890");
    assert_eq!(u64_to_decimal(u64::MAX), u64::MAX.to_string());
}

#[test]
fn decimal_of_signed_numbers() {
    assert_eq!(i64_to_decimal(0), "0");
    assert_eq!(i64_to_decimal(-5), "-5");
    assert_eq!(i64_to_decimal(2023), "2023");
    assert_eq!(i64_to_decimal(i64::MIN), i64::MIN.to_string());
    assert_eq!(i64_to_decimal(i64::MAX), i64::MAX.to_string());
}

#[test]
fn join_matches_std_join() {
    let empty: Vec<String> = vec![];
    assert_eq!(join_strings(&empty, ", "), "");
    let one = vec!["Action".to_string()];
    assert_eq!(join_strings(&one, ", "), "Action");
    let three = vec!["Action".to_string(), "Drama".to_string(), "Fantasy".to_string()];
    assert_eq!(join_strings(&three, ", "), "Action, Drama, Fantasy");
    assert_eq!(join_strings(&three, "\n"), three.join("\n"));
}

#[test]
fn ascii_lowercase_keeps_other_characters() {
    assert_eq!(to_ascii_lowercase("Cat"), "cat");
    assert_eq!(to_ascii_lowercase("RUFF Ruff!"), "ruff ruff!");
    assert_eq!(to_ascii_lowercase("ÉCOLE"), "École");
    assert_eq!(to_ascii_lowercase(""), "");
}

#[test]
fn string_comparison() {
    assert!(str_eq("next", "next"));
    assert!(!str_eq("next", "nex"));
    assert!(!str_eq("next", "text"));
    assert!(str_eq("", ""));
}

#[test]
fn capitalize_lowercases_then_uppercases_first() {
    assert_eq!(capitalize("eNGLISH".to_string()), "English");
    assert_eq!(capitalize("japanese".to_string()), "Japanese");
    assert_eq!(capitalize("".to_string()), "");
    assert_eq!(capitalize("ÉCOLE".to_string()), "École");
}

#[test]
fn capitalize_lowered_uppercases_first_character() {
    assert_eq!(capitalize_lowered("english"), "English");
    assert_eq!(capitalize_lowered("ßa"), "SSa");
    assert_eq!(capitalize_lowered(""), "");
}

