use micrec::path::make_unique_filename;
use micrec::text::{contains_substring, str_eq, u128_to_string};

fn names(v: &[&str]) -> Vec<String> {
    v.iter().map(|s| s.to_string()).collect()
}

#[test]
fn keeps_free_name() {
    let existing = names(&["a.wav"]);
    assert_eq!(make_unique_filename("b.wav", &existing), "b.wav");
}

#[test]
fn disambiguates_first_collision() {
    let existing = names(&["a.wav"]);
    assert_eq!(make_unique_filename("a.wav", &existing), "a_1.wav");
}

#[test]
fn disambiguates_second_collision() {
    let existing = names(&["a.wav", "a_1.wav"]);
    assert_eq!(make_unique_filename("a.wav", &existing), "a_2.wav");
}

#[test]
fn takes_first_gap() {
    let existing = names(&["a.wav", "a_1.wav", "a_3.wav"]);
    assert_eq!(make_unique_filename("a.wav", &existing), "a_2.wav");
}

#[test]
fn defaults_extension_to_wav() {
    let existing = names(&["b"]);
    assert_eq!(make_unique_filename("b", &existing), "b_1.wav");
}

#[test]
fn splits_at_last_dot() {
    let existing = names(&["x.y.z"]);
    assert_eq!(make_unique_filename("x.y.z", &existing), "x.y_1.z");
}

#[test]
fn leading_dot_is_not_an_extension() {
    let existing = names(&[".cfg"]);
    assert_eq!(make_unique_filename(".cfg", &existing), ".cfg_1.wav");
}

#[test]
fn empty_existing_list() {
    let existing: Vec<String> = Vec::new();
    assert_eq!(make_unique_filename("a.wav", &existing), "a.wav");
}

#[test]
fn renders_decimal() {
    assert_eq!(u128_to_string(0), "0");
    assert_eq!(u128_to_string(9), "9");
    assert_eq!(u128_to_string(10), "10");
    assert_eq!(u128_to_string(12345), "12345");
}

#[test]
fn substring_search() {
    assert!(contains_substring("usb mic", "mic"));
    assert!(contains_substring("abc", ""));
    assert!(contains_substring("", ""));
    assert!(!contains_substring("", "a"));
    assert!(!contains_substring("usb mic", "mike"));
    assert!(contains_substring("aab", "ab"));
}

#[test]
fn string_equality() {
    assert!(str_eq("abc", "abc"));
    assert!(!str_eq("abc", "abd"));
    assert!(!str_eq("abc", "abcd"));
    assert!(str_eq("", ""));
}
