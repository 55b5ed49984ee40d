use timesnapper_checker::error::ScanError;
use timesnapper_checker::listing::file_bucket_key;

#[test]
fn key_joins_hour_and_minute() {
    assert_eq!(file_bucket_key("09.00.png"), Ok("0900".to_string()));
    assert_eq!(file_bucket_key("23.59.17.thumb.png"), Ok("2359".to_string()));
}

#[test]
fn key_of_a_name_with_one_dot() {
    assert_eq!(file_bucket_key("a.b"), Ok("ab".to_string()));
    assert_eq!(file_bucket_key("notes.txt"), Ok("notestxt".to_string()));
}

#[test]
fn key_with_empty_parts() {
    assert_eq!(file_bucket_key("a."), Ok("a".to_string()));
    assert_eq!(file_bucket_key(".b"), Ok("b".to_string()));
    assert_eq!(file_bucket_key("."), Ok("".to_string()));
    assert_eq!(file_bucket_key("..png"), Ok("".to_string()));
    assert_eq!(file_bucket_key("a..png"), Ok("a".to_string()));
}

#[test]
fn name_without_a_dot_is_malformed() {
    assert_eq!(file_bucket_key("README"), Err(ScanError::MalformedEntry));
    assert_eq!(file_bucket_key(""), Err(ScanError::MalformedEntry));
}

#[test]
fn key_of_a_name_beyond_ascii() {
    assert_eq!(file_bucket_key("né.ü日.png"), Ok("néü日".to_string()));
}

#[test]
fn key_agrees_with_splitting_on_dots() {
    for name in ["09.00.png", "a.b", "a.", ".", "..", "x.y.z.w", "日.本"] {
        let parts: Vec<&str> = name.split(".").collect();
        assert_eq!(file_bucket_key(name), Ok(format!("{}{}", parts[0], parts[1])));
    }
}
