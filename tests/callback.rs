use monzo_cli::callback::{code_from_request_line, find_query_value, redirect_url, CallbackError};
use monzo_cli::text::{is_white_char, second_word_of, trim_end};

#[test]
fn code_is_read_from_request_line() {
    assert_eq!(
        code_from_request_line("GET /?code=XYZ&state=matching HTTP/1.1\r\n", "matching"),
        Ok("XYZ".to_string())
    );
}

#[test]
fn code_is_percent_decoded() {
    assert_eq!(
        code_from_request_line("GET /callback?state=s%20t&code=a%2Fb+c HTTP/1.1", "s t"),
        Ok("a/b c".to_string())
    );
}

#[test]
fn first_code_wins() {
    assert_eq!(code_from_request_line("GET /?code=one&code=two&state=x HTTP/1.1", "x"), Ok("one".to_string()));
}

#[test]
fn missing_code_is_reported() {
    assert_eq!(
        code_from_request_line("GET /?state=matching HTTP/1.1", "matching"),
        Err(CallbackError::MissingCode)
    );
    assert_eq!(code_from_request_line("GET / HTTP/1.1", "matching"), Err(CallbackError::MissingCode));
}

#[test]
fn state_must_match() {
    assert_eq!(
        code_from_request_line("GET /?code=XYZ&state=other HTTP/1.1", "matching"),
        Err(CallbackError::StateMismatch)
    );
    assert_eq!(
        code_from_request_line("GET /?code=XYZ HTTP/1.1", "matching"),
        Err(CallbackError::StateMismatch)
    );
}

#[test]
fn missing_target_is_reported() {
    assert_eq!(code_from_request_line("", "matching"), Err(CallbackError::MissingTarget));
    assert_eq!(code_from_request_line("  GET   \r\n", "matching"), Err(CallbackError::MissingTarget));
}

#[test]
fn invalid_url_is_reported() {
    assert_eq!(code_from_request_line("GET :99999/?code=x&state=s HTTP/1.1", "s"), Err(CallbackError::InvalidUrl));
}

#[test]
fn redirect_url_is_built_against_localhost() {
    assert_eq!(redirect_url("/?code=1"), "http://localhost/?code=1");
}

#[test]
fn query_value_lookup() {
    let pairs = vec![
        ("state".to_string(), "s".to_string()),
        ("code".to_string(), "c1".to_string()),
        ("code".to_string(), "c2".to_string()),
    ];
    assert_eq!(find_query_value(&pairs, "code"), Some("c1".to_string()));
    assert_eq!(find_query_value(&pairs, "state"), Some("s".to_string()));
    assert_eq!(find_query_value(&pairs, "other"), None);
    assert_eq!(find_query_value(&Vec::new(), "code"), None);
}

#[test]
fn words_and_trimming() {
    assert_eq!(second_word_of("GET /a?b=c HTTP/1.1"), Some("/a?b=c".to_string()));
    assert_eq!(second_word_of(" \t GET\u{3000}/x"), Some("/x".to_string()));
    assert_eq!(second_word_of("GET"), None);
    assert_eq!(trim_end("abc \r\n"), "abc");
    assert_eq!(trim_end(" a b\u{a0}"), " a b");
    assert_eq!(trim_end(""), "");
    assert!(is_white_char('\u{2028}'));
    assert!(!is_white_char('x'));
}
