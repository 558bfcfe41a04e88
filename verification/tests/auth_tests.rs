use server_watcher::auth::{token_from_auth_header, token_from_query, validate_token};

#[test]
fn no_expected_token_allows_everything() {
    assert!(validate_token(None, None));
    assert!(validate_token(Some("anything"), None));
}

#[test]
fn matching_token_is_accepted() {
    assert!(validate_token(Some("secret"), Some("secret")));
}

#[test]
fn wrong_or_missing_token_is_rejected() {
    assert!(!validate_token(Some("wrong"), Some("secret")));
    assert!(!validate_token(None, Some("secret")));
    assert!(!validate_token(Some("secret2"), Some("secret")));
    assert!(!validate_token(Some("secre"), Some("secret")));
}

#[test]
fn bearer_header_yields_token() {
    assert_eq!(token_from_auth_header("Bearer abc123"), Some("abc123".to_string()));
    assert_eq!(token_from_auth_header("Bearer "), Some("".to_string()));
}

#[test]
fn non_bearer_header_yields_nothing() {
    assert_eq!(token_from_auth_header("Basic abc123"), None);
    assert_eq!(token_from_auth_header("bearer abc123"), None);
    assert_eq!(token_from_auth_header(""), None);
}

#[test]
fn query_token_found_in_first_segment() {
    assert_eq!(token_from_query("token=abc"), Some("abc".to_string()));
}

#[test]
fn query_token_found_after_other_pairs() {
    assert_eq!(token_from_query("a=1&token=xyz&b=2"), Some("xyz".to_string()));
    assert_eq!(token_from_query("a=1&b=2&token=last"), Some("last".to_string()));
}

#[test]
fn query_without_token_yields_nothing() {
    assert_eq!(token_from_query(""), None);
    assert_eq!(token_from_query("a=1&b=2"), None);
    // the key must start the segment
    assert_eq!(token_from_query("xtoken=1"), None);
}

#[test]
fn query_token_empty_value() {
    assert_eq!(token_from_query("a=1&token="), Some("".to_string()));
}
