use std_stupid_http::errors::StdStupidError;
use std_stupid_http::text::find_substring_bytes_start;

#[test]
fn sub_string_does_match() {
    let input = "Does match";
    let sub_string = "match";

    let location = find_substring_bytes_start(input.as_bytes(), sub_string.as_bytes()).unwrap();

    assert_eq!(location, 5);
}

#[test]
fn sub_string_exact_math() {
    let input = "Match";
    let sub_string = "Match";

    let location = find_substring_bytes_start(input.as_bytes(), sub_string.as_bytes()).unwrap();

    assert_eq!(location, 0)
}

#[test]
fn sub_string_missing_is_an_error() {
    let r = find_substring_bytes_start("Does not Match".as_bytes(), "hello".as_bytes());
    assert!(matches!(r, Err(StdStupidError::SubString(_))));
}

#[test]
fn sub_string_empty_pattern_is_not_found() {
    let r = find_substring_bytes_start(b"abc", b"");
    assert!(matches!(r, Err(StdStupidError::SubString(_))));
}

#[test]
fn sub_string_finds_first_of_overlapping() {
    assert_eq!(find_substring_bytes_start(b"aaab", b"aab").unwrap(), 1);
    assert_eq!(find_substring_bytes_start(b"abab", b"ab").unwrap(), 0);
}
