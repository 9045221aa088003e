use mail_notifier::recovery::is_connection_like;
use mail_notifier::text::{chars_of, contains};

#[test]
fn connection_and_timeout_are_connection_like() {
    assert!(is_connection_like("connection reset"));
    assert!(is_connection_like("read timeout"));
    assert!(is_connection_like("the connection timed out: timeout"));
    assert!(is_connection_like("timeout"));
    assert!(is_connection_like("connection"));
    assert!(is_connection_like("io error: connection refused (os error 111)"));
}

#[test]
fn other_failures_are_not_connection_like() {
    assert!(!is_connection_like(""));
    assert!(!is_connection_like("Failed to send NOOP command"));
    assert!(!is_connection_like("bad response"));
    assert!(!is_connection_like("connectio"));
    assert!(!is_connection_like("time out"));
    assert!(!is_connection_like("timeou"));
}

#[test]
fn classification_is_case_sensitive() {
    assert!(!is_connection_like("Connection reset"));
    assert!(!is_connection_like("TIMEOUT"));
    assert!(is_connection_like("Connection lost after timeout"));
}

#[test]
fn contains_finds_substrings() {
    assert!(contains("hello world", "lo wo"));
    assert!(contains("hello", "hello"));
    assert!(contains("hello", ""));
    assert!(contains("", ""));
    assert!(contains("aaab", "aab"));
    assert!(contains("x timeout", "timeout"));
    assert!(contains("grüße timeout", "timeout"));
    assert!(contains("grüße", "üß"));
}

#[test]
fn contains_rejects_what_is_not_there() {
    assert!(!contains("", "a"));
    assert!(!contains("hello", "hello!"));
    assert!(!contains("abcabd", "abcd"));
    assert!(!contains("timeou", "timeout"));
}

#[test]
fn chars_of_keeps_every_character() {
    assert_eq!(chars_of("a📧é"), vec!['a', '📧', 'é']);
    assert_eq!(chars_of(""), Vec::<char>::new());
}
