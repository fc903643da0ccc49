use webcore::docs::{openapi, swagger};

#[test]
fn valid_document_parses() {
    let doc = "{\"openapi\":\"3.0.0\",\"info\":{\"title\":\"webcore\",\"version\":\"0.1.0\"}}";
    let value = openapi(doc).unwrap();
    assert_eq!(value.get("openapi").and_then(|v| v.as_str()), Some("3.0.0"));
}

#[test]
fn malformed_document_yields_masked_server_error() {
    let e = openapi("{not json").unwrap_err();
    assert_eq!(e.status, 500);
    assert_eq!(e.message, "an internal error occurred");
    let cause = e.cause.unwrap();
    assert!(cause.starts_with("failed to parse OpenAPI definition: "));
}

#[test]
fn empty_document_is_rejected() {
    assert!(openapi("").is_err());
}

#[test]
fn swagger_page_embeds_the_viewer() {
    let page = swagger();
    assert!(page.contains("swagger-ui"));
    assert!(page.contains("/docs/openapi.json"));
    assert!(page.starts_with("<!doctype html>"));
    assert_eq!(swagger(), page);
}
