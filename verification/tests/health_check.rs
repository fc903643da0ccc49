use webcore::error::Severity;
use webcore::health::db_check;
use webcore::json::JsonValue;
use webcore::meta::{health, version};
use webcore::text::is_uuid_string;

fn obj_entries(v: &JsonValue) -> &Vec<(String, JsonValue)> {
    match v {
        JsonValue::Obj(entries) => entries,
        _ => panic!("expected a JSON object"),
    }
}

fn obj_get<'a>(v: &'a JsonValue, key: &str) -> &'a JsonValue {
    for (name, value) in obj_entries(v) {
        if name == key {
            return value;
        }
    }
    panic!("missing key {key}");
}

#[test]
fn reachable_database_reports_up() {
    let (report, log) = db_check(Ok(160008), 3);
    assert!(report.up);
    assert_eq!(report.duration_ms, 3);
    assert_eq!(report.server_version, Some(160008));
    assert!(report.error_id.is_none());
    assert!(report.error.is_none());
    assert!(log.is_none());
    let body = report.to_json();
    assert_eq!(obj_get(&body, "status"), &JsonValue::Str("up".to_string()));
    assert_eq!(obj_get(&body, "duration"), &JsonValue::UInt(3));
    assert_eq!(obj_get(&body, "server_version"), &JsonValue::UInt(160008));
    let names: Vec<&str> = obj_entries(&body).iter().map(|(n, _)| n.as_str()).collect();
    assert_eq!(names, vec!["status", "duration", "server_version"]);
}

#[test]
fn unreachable_database_reports_down() {
    let (report, log) = db_check(Err("failed to get connection".to_string()), 250);
    assert!(!report.up);
    assert_eq!(report.duration_ms, 250);
    assert!(report.server_version.is_none());
    let eid = report.error_id.clone().unwrap();
    assert!(is_uuid_string(&eid));
    assert_eq!(report.error.as_deref(), Some("failed to get connection"));
    let log = log.unwrap();
    assert_eq!(log.severity, Severity::Error);
    assert_eq!(log.error_id, eid);
    assert_eq!(log.cause, "failed to get connection");
    let body = report.to_json();
    let names: Vec<&str> = obj_entries(&body).iter().map(|(n, _)| n.as_str()).collect();
    assert_eq!(names, vec!["status", "duration", "error_id", "error"]);
    assert_eq!(obj_get(&body, "status"), &JsonValue::Str("down".to_string()));
    assert_eq!(obj_get(&body, "duration"), &JsonValue::UInt(250));
    assert_eq!(obj_get(&body, "error_id"), &JsonValue::Str(eid));
}

#[test]
fn down_report_error_field_is_only_the_given_rendering() {
    let (report, _) = db_check(Err("connection refused".to_string()), 0);
    let err = report.error.unwrap();
    assert_eq!(err, "connection refused");
    assert!(!err.contains("postgres://"));
}

#[test]
fn health_body_nests_under_database() {
    let (report, _) = db_check(Ok(150001), 1);
    let body = health(&report);
    let names: Vec<&str> = obj_entries(&body).iter().map(|(n, _)| n.as_str()).collect();
    assert_eq!(names, vec!["database"]);
    let db = obj_get(&body, "database");
    assert_eq!(obj_get(db, "status"), &JsonValue::Str("up".to_string()));
}

#[test]
fn version_body_is_fixed_and_nonempty() {
    let v1 = version();
    let v2 = version();
    assert_eq!(v1, v2);
    match obj_get(&v1, "name") {
        JsonValue::Str(s) => assert!(!s.is_empty()),
        other => panic!("unexpected name value: {other:?}"),
    }
    match obj_get(&v1, "version") {
        JsonValue::Str(s) => assert!(!s.is_empty()),
        other => panic!("unexpected version value: {other:?}"),
    }
    assert_eq!(obj_get(&v1, "name"), &JsonValue::Str("webcore".to_string()));
    assert_eq!(obj_get(&v1, "version"), &JsonValue::Str("0.1.0".to_string()));
}
