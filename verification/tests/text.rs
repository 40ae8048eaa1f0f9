use media_session::text::{equal, starts_with, strip_prefix};

#[test]
fn starts_with_compares_characters() {
    assert!(starts_with("", ""));
    assert!(starts_with("abc", ""));
    assert!(starts_with("abc", "a"));
    assert!(starts_with("abc", "abc"));
    assert!(!starts_with("abc", "abcd"));
    assert!(!starts_with("abc", "b"));
    assert!(!starts_with("", "a"));
    assert!(starts_with("äöü", "äö"));
    assert!(!starts_with("äöü", "a"));
    assert!(!starts_with("a", "ä"));
}

#[test]
fn equal_compares_whole_texts() {
    assert!(equal("", ""));
    assert!(equal("abc", "abc"));
    assert!(!equal("abc", "ab"));
    assert!(!equal("ab", "abc"));
    assert!(!equal("abc", "abd"));
    assert!(equal("日本語", "日本語"));
    assert!(!equal("日本語", "日本"));
}

#[test]
fn strip_prefix_gives_the_rest() {
    assert_eq!(strip_prefix("abc", "a"), Some("bc"));
    assert_eq!(strip_prefix("abc", ""), Some("abc"));
    assert_eq!(strip_prefix("abc", "abc"), Some(""));
    assert_eq!(strip_prefix("abc", "b"), None);
    assert_eq!(strip_prefix("äbc", "ä"), Some("bc"));
    assert_eq!(strip_prefix("", "a"), None);
}
