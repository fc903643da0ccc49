use webcore::headers::{find_header, is_sensitive_header, redact_sensitive, set_header};
use webcore::trace::{request_event, RequestMeta};

fn headers(pairs: &[(&str, &str)]) -> Vec<(String, String)> {
    pairs.iter().map(|(n, v)| (n.to_string(), v.to_string())).collect()
}

#[test]
fn sensitive_names_detected_case_insensitively() {
    assert!(is_sensitive_header("authorization"));
    assert!(is_sensitive_header("Authorization"));
    assert!(is_sensitive_header("AUTHORIZATION"));
    assert!(is_sensitive_header("proxy-authorization"));
    assert!(is_sensitive_header("Cookie"));
    assert!(is_sensitive_header("Set-Cookie"));
    assert!(!is_sensitive_header("accept"));
    assert!(!is_sensitive_header("authorization-time"));
    assert!(!is_sensitive_header("x-request-id"));
}

#[test]
fn redaction_replaces_sensitive_values() {
    let hs = headers(&[
        ("Authorization", "Bearer xyz"),
        ("accept", "application/json"),
        ("Cookie", "session=xyz"),
    ]);
    let red = redact_sensitive(&hs);
    assert_eq!(red.len(), 3);
    assert_eq!(red[0], ("Authorization".to_string(), "[REDACTED]".to_string()));
    assert_eq!(red[1], ("accept".to_string(), "application/json".to_string()));
    assert_eq!(red[2], ("Cookie".to_string(), "[REDACTED]".to_string()));
}

#[test]
fn logged_request_event_never_carries_credentials() {
    let req = RequestMeta {
        method: "GET".to_string(),
        uri: "/meta/health".to_string(),
        http_version: "HTTP/1.1".to_string(),
        headers: headers(&[("Authorization", "Bearer xyz"), ("host", "example.test")]),
    };
    let event = request_event(&req);
    for (_, value) in &event.headers {
        assert!(!value.contains("xyz"));
    }
    assert!(event.headers.iter().any(|(_, v)| v == "[REDACTED]"));
}

#[test]
fn set_header_replaces_existing_entry() {
    let hs = headers(&[("x-request-id", "old"), ("content-type", "text/plain")]);
    let out = set_header(&hs, "x-request-id", "new");
    assert_eq!(out, headers(&[("content-type", "text/plain"), ("x-request-id", "new")]));
    assert_eq!(find_header(&out, "x-request-id"), Some("new".to_string()));
}

#[test]
fn find_header_first_match_or_none() {
    let hs = headers(&[("a", "1"), ("b", "2"), ("a", "3")]);
    assert_eq!(find_header(&hs, "a"), Some("1".to_string()));
    assert_eq!(find_header(&hs, "b"), Some("2".to_string()));
    assert_eq!(find_header(&hs, "c"), None);
}
