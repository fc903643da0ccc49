use vstd::prelude::*;
use crate::health::HealthReport;
use crate::json::{JsonVal, JsonValue, json_model};

verus! {

/// The service's name, as the version endpoint reports it.
pub open spec fn service_name() -> Seq<char> {
    "webcore"@
}

/// The service's version tag, reported by the version endpoint and carried on
/// every request's logging scope.
pub open spec fn service_version() -> Seq<char> {
    "0.1.0"@
}

/// The body of the version endpoint: the fixed, non-empty name and version.
/// A pure value, so repeated calls answer the same.
pub fn version() -> (r: JsonValue)
    ensures
        r.deep_view() == JsonVal::Obj(seq![
            ("name"@, JsonVal::Str(service_name())),
            ("version"@, JsonVal::Str(service_version())),
        ]),
        service_name().len() > 0,
        service_version().len() > 0,
{
    proof {
        reveal_strlit("webcore");
        reveal_strlit("0.1.0");
    }
    let name_val = JsonValue::Str("webcore".to_owned());
    let version_val = JsonValue::Str("0.1.0".to_owned());
    let fields = vec![
        ("name".to_owned(), name_val),
        ("version".to_owned(), version_val),
    ];
    let r = JsonValue::Obj(fields);
    proof {
        assert(fields@.len() == 2);
        assert(json_model(fields@[0].1) == JsonVal::Str(service_name()));
        assert(json_model(fields@[1].1) == JsonVal::Str(service_version()));
        let want = JsonVal::Obj(seq![
            ("name"@, JsonVal::Str(service_name())),
            ("version"@, JsonVal::Str(service_version())),
        ]);
        assert(r.deep_view()->Obj_0 =~= want->Obj_0);
        assert(r.deep_view() =~= want);
    }
    r
}

/// The body of the health endpoint: the database report nested under the
/// `database` key.
pub fn health(report: &HealthReport) -> (r: JsonValue)
    requires
        report.wf(),
    ensures
        r.deep_view() == JsonVal::Obj(seq![("database"@, report.json_spec())]),
{
    let db = report.to_json();
    let fields = vec![("database".to_owned(), db)];
    let r = JsonValue::Obj(fields);
    proof {
        assert(fields@.len() == 1);
        assert(json_model(fields@[0].1) == report.json_spec());
        let want = JsonVal::Obj(seq![("database"@, report.json_spec())]);
        assert(r.deep_view()->Obj_0 =~= want->Obj_0);
        assert(r.deep_view() =~= want);
    }
    r
}

} // verus!
