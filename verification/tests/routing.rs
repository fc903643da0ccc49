use webcore::router::{not_found, router, RouteTarget};

#[test]
fn registered_routes_match() {
    assert_eq!(router("GET", "/docs/openapi.json"), RouteTarget::OpenApiDoc);
    assert_eq!(router("GET", "/docs"), RouteTarget::SwaggerPage);
    assert_eq!(router("GET", "/meta/health"), RouteTarget::Health);
    assert_eq!(router("GET", "/meta/version"), RouteTarget::Version);
}

#[test]
fn unmatched_path_falls_through() {
    assert_eq!(router("GET", "/does-not-exist"), RouteTarget::NotFound);
    assert_eq!(router("GET", "/"), RouteTarget::NotFound);
    assert_eq!(router("GET", ""), RouteTarget::NotFound);
    assert_eq!(router("GET", "/meta"), RouteTarget::NotFound);
    assert_eq!(router("GET", "/meta/"), RouteTarget::NotFound);
    assert_eq!(router("GET", "/docs/"), RouteTarget::NotFound);
    assert_eq!(router("GET", "/docs/openapi.jsonx"), RouteTarget::NotFound);
    assert_eq!(router("GET", "/meta/healthcheck"), RouteTarget::NotFound);
}

#[test]
fn unmatched_method_falls_through() {
    assert_eq!(router("POST", "/meta/health"), RouteTarget::NotFound);
    assert_eq!(router("DELETE", "/docs"), RouteTarget::NotFound);
    assert_eq!(router("get", "/meta/version"), RouteTarget::NotFound);
}

#[test]
fn not_found_envelope_is_fixed() {
    let e = not_found();
    assert_eq!(e.status, 404);
    assert_eq!(e.message, "requested endpoint not found");
    assert!(e.details.is_none());
    let r = e.into_response();
    assert_eq!(r.status, 404);
}
