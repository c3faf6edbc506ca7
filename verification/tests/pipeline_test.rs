//! Word-level similarity used to judge transcriptions against a reference.

use std::collections::HashSet;

/// Calculate word similarity between two strings.
/// Returns a value between 0.0 and 1.0.
fn word_similarity(actual: &str, expected: &str) -> f32 {
    let actual_lower = actual.to_lowercase();
    let expected_lower = expected.to_lowercase();

    let actual_words: HashSet<&str> = actual_lower
        .split(|c: char| !c.is_alphanumeric())
        .filter(|s| !s.is_empty())
        .collect();
    let expected_words: HashSet<&str> = expected_lower
        .split(|c: char| !c.is_alphanumeric())
        .filter(|s| !s.is_empty())
        .collect();

    if expected_words.is_empty() {
        return if actual_words.is_empty() { 1.0 } else { 0.0 };
    }

    let intersection = actual_words.intersection(&expected_words).count();
    intersection as f32 / expected_words.len() as f32
}

#[test]
fn test_word_similarity_identical() {
    assert_eq!(word_similarity("hello world", "hello world"), 1.0);
}

#[test]
fn test_word_similarity_case_insensitive() {
    assert_eq!(word_similarity("Hello World", "hello world"), 1.0);
}

#[test]
fn test_word_similarity_partial() {
    let sim = word_similarity("hello there world", "hello world");
    assert!(sim >= 0.99, "expected 1.0, got {}", sim); // all expected words present
}

#[test]
fn test_word_similarity_none() {
    assert_eq!(word_similarity("foo bar", "hello world"), 0.0);
}
