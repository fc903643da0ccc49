use webcore::headers::find_header;
use webcore::text::is_uuid_string;
use webcore::trace::{attach_request_id, response_event, CustomMakeSpan, RequestId, RequestMeta};

fn headers(pairs: &[(&str, &str)]) -> Vec<(String, String)> {
    pairs.iter().map(|(n, v)| (n.to_string(), v.to_string())).collect()
}

#[test]
fn fresh_request_id_is_uuid_shaped() {
    let id = RequestId::fresh();
    assert!(is_uuid_string(&id.0));
    let other = RequestId::fresh();
    assert_ne!(id.0, other.0);
}

#[test]
fn response_carries_request_id_header() {
    let id = RequestId::fresh();
    let out = attach_request_id(&headers(&[("content-type", "application/json")]), &id);
    let echoed = find_header(&out, "x-request-id").unwrap();
    assert_eq!(echoed, id.0);
    assert!(is_uuid_string(&echoed));
}

#[test]
fn request_id_overwrites_downstream_value() {
    let id = RequestId::fresh();
    let out = attach_request_id(&headers(&[("x-request-id", "spoofed")]), &id);
    assert_eq!(find_header(&out, "x-request-id"), Some(id.0.clone()));
    assert!(out.iter().all(|(_, v)| v != "spoofed"));
}

#[test]
fn span_carries_id_request_line_and_service_version() {
    let id = RequestId::fresh();
    let req = RequestMeta {
        method: "GET".to_string(),
        uri: "/meta/version".to_string(),
        http_version: "HTTP/1.1".to_string(),
        headers: headers(&[]),
    };
    let span = CustomMakeSpan.make_span(&id, &req);
    assert_eq!(span.request_id, id.0);
    assert_eq!(span.method, "GET");
    assert_eq!(span.uri, "/meta/version");
    assert_eq!(span.http_version, "HTTP/1.1");
    assert_eq!(span.api_version, "0.1.0");
}

#[test]
fn response_event_reports_status_duration_and_redacted_headers() {
    let hs = headers(&[("set-cookie", "token=xyz"), ("content-length", "12")]);
    let event = response_event(404, 7, &hs);
    assert_eq!(event.status, 404);
    assert_eq!(event.duration_ms, 7);
    assert_eq!(event.headers[0], ("set-cookie".to_string(), "[REDACTED]".to_string()));
    assert_eq!(event.headers[1], ("content-length".to_string(), "12".to_string()));
}
