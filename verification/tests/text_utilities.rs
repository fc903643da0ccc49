use webcore::json::JsonValue;
use webcore::text::{is_uuid_string, str_eq, str_eq_ci};

#[test]
fn uuid_format_accepts_canonical_text() {
    assert!(is_uuid_string("67e55044-10b1-426f-9247-bb680e5fe0c8"));
    assert!(is_uuid_string("00000000-0000-0000-0000-000000000000"));
}

#[test]
fn uuid_format_rejects_other_text() {
    assert!(!is_uuid_string(""));
    assert!(!is_uuid_string("67e55044-10b1-426f-9247-bb680e5fe0c"));
    assert!(!is_uuid_string("67e55044-10b1-426f-9247-bb680e5fe0c88"));
    assert!(!is_uuid_string("67E55044-10B1-426F-9247-BB680E5FE0C8"));
    assert!(!is_uuid_string("67e55044210b1-426f-9247-bb680e5fe0c8"));
    assert!(!is_uuid_string("67e55044-10b1-426f-9247-bb680e5feg0c"));
}

#[test]
fn string_comparisons() {
    assert!(str_eq("abc", "abc"));
    assert!(!str_eq("abc", "abd"));
    assert!(!str_eq("abc", "ABC"));
    assert!(str_eq_ci("abc", "ABC"));
    assert!(str_eq_ci("Set-Cookie", "set-cookie"));
    assert!(!str_eq_ci("abc", "abd"));
    assert!(!str_eq_ci("abc", "abcd"));
}

#[test]
fn json_clone_preserves_structure() {
    let v = JsonValue::Obj(vec![
        ("list".to_string(), JsonValue::Arr(vec![
            JsonValue::Bool(true),
            JsonValue::UInt(7),
            JsonValue::Null,
        ])),
        ("name".to_string(), JsonValue::Str("x".to_string())),
    ]);
    assert_eq!(v.clone(), v);
}

#[test]
fn empty_object_has_no_entries() {
    assert_eq!(JsonValue::empty_object(), JsonValue::Obj(vec![]));
}
