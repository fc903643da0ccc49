use vstd::prelude::*;
use crate::error::Severity;
use crate::ids::fresh_ordered_id;
use crate::json::{JsonVal, JsonValue, json_model};
use crate::text::is_uuid_text;

verus! {

/// The transient result of probing the database pool: up or down, how long
/// the probe took, and on failure a fresh error id with a rendering of the
/// cause. Produced fresh on every probe; never persisted.
#[derive(Debug, PartialEq, Eq)]
pub struct HealthReport {
    pub up: bool,
    pub duration_ms: u64,
    pub server_version: Option<u64>,
    pub error_id: Option<String>,
    pub error: Option<String>,
}

/// The one log record a failed probe emits: the fresh error id and the cause,
/// at error severity.
#[derive(Debug)]
pub struct HealthFailureLog {
    pub severity: Severity,
    pub error_id: String,
    pub cause: String,
}

impl HealthReport {
    /// An up report carries the server version and no error fields; a down
    /// report carries a well-shaped error id and a cause, and no version.
    pub open spec fn wf(&self) -> bool {
        if self.up {
            &&& self.server_version is Some
            &&& self.error_id is None
            &&& self.error is None
        } else {
            &&& self.server_version is None
            &&& match self.error_id {
                Option::Some(eid) => is_uuid_text(eid@),
                Option::None => false,
            }
            &&& self.error is Some
        }
    }

    /// The report on the wire: `status`, `duration`, and either the server
    /// version or the error id and cause.
    pub open spec fn json_spec(&self) -> JsonVal {
        if self.up {
            JsonVal::Obj(seq![
                ("status"@, JsonVal::Str("up"@)),
                ("duration"@, JsonVal::UInt(self.duration_ms)),
                ("server_version"@, match self.server_version {
                    Option::Some(v) => JsonVal::UInt(v),
                    Option::None => JsonVal::Null,
                }),
            ])
        } else {
            JsonVal::Obj(seq![
                ("status"@, JsonVal::Str("down"@)),
                ("duration"@, JsonVal::UInt(self.duration_ms)),
                ("error_id"@, match self.error_id {
                    Option::Some(s) => JsonVal::Str(s@),
                    Option::None => JsonVal::Null,
                }),
                ("error"@, match self.error {
                    Option::Some(s) => JsonVal::Str(s@),
                    Option::None => JsonVal::Null,
                }),
            ])
        }
    }

    /// Builds the wire form of the report.
    pub fn to_json(&self) -> (r: JsonValue)
        requires
            self.wf(),
        ensures
            r.deep_view() == self.json_spec(),
    {
        if self.up {
            let v: u64 = match &self.server_version {
                Some(v) => *v,
                None => 0,
            };
            let status_val = JsonValue::Str("up".to_owned());
            let duration_val = JsonValue::UInt(self.duration_ms);
            let version_val = JsonValue::UInt(v);
            let fields = vec![
                ("status".to_owned(), status_val),
                ("duration".to_owned(), duration_val),
                ("server_version".to_owned(), version_val),
            ];
            let r = JsonValue::Obj(fields);
            proof {
                assert(fields@.len() == 3);
                assert(json_model(fields@[0].1) == JsonVal::Str("up"@));
                assert(json_model(fields@[1].1) == JsonVal::UInt(self.duration_ms));
                assert(json_model(fields@[2].1) == (match self.server_version {
                    Option::Some(v) => JsonVal::UInt(v),
                    Option::None => JsonVal::Null,
                }));
                assert(r.deep_view()->Obj_0 =~= self.json_spec()->Obj_0);
                assert(r.deep_view() =~= self.json_spec());
            }
            r
        } else {
            let eid: String = match &self.error_id {
                Some(s) => s.clone(),
                None => String::new(),
            };
            let err: String = match &self.error {
                Some(s) => s.clone(),
                None => String::new(),
            };
            let status_val = JsonValue::Str("down".to_owned());
            let duration_val = JsonValue::UInt(self.duration_ms);
            let eid_val = JsonValue::Str(eid);
            let err_val = JsonValue::Str(err);
            let fields = vec![
                ("status".to_owned(), status_val),
                ("duration".to_owned(), duration_val),
                ("error_id".to_owned(), eid_val),
                ("error".to_owned(), err_val),
            ];
            let r = JsonValue::Obj(fields);
            proof {
                assert(fields@.len() == 4);
                assert(json_model(fields@[0].1) == JsonVal::Str("down"@));
                assert(json_model(fields@[1].1) == JsonVal::UInt(self.duration_ms));
                assert(json_model(fields@[2].1) == (match self.error_id {
                    Option::Some(s) => JsonVal::Str(s@),
                    Option::None => JsonVal::Null,
                }));
                assert(json_model(fields@[3].1) == (match self.error {
                    Option::Some(s) => JsonVal::Str(s@),
                    Option::None => JsonVal::Null,
                }));
                assert(r.deep_view()->Obj_0 =~= self.json_spec()->Obj_0);
                assert(r.deep_view() =~= self.json_spec());
            }
            r
        }
    }
}

/// Turns the outcome of one pool-acquisition attempt into a health report.
/// The probe itself (acquiring a connection, timing it) happens at the
/// boundary; this decides what is reported, for every possible outcome, and
/// never fails itself. On failure it draws a fresh error id and also yields
/// the one log record to emit.
pub fn db_check(outcome: Result<u64, String>, duration_ms: u64) -> (r: (
    HealthReport,
    Option<HealthFailureLog>,
))
    ensures
        r.0.wf(),
        r.0.duration_ms == duration_ms,
        r.0.up == outcome is Ok,
        outcome matches Ok(v) ==> r.0.server_version == Some(v) && r.1 is None,
        outcome matches Err(m) ==> r.0.error == Some(m)
            && (r.1 matches Some(log) && log.severity == Severity::Error
            && log.cause == m && Some(log.error_id) == r.0.error_id),
{
    match outcome {
        Ok(v) => (
            HealthReport {
                up: true,
                duration_ms,
                server_version: Some(v),
                error_id: None,
                error: None,
            },
            None,
        ),
        Err(m) => {
            let eid = fresh_ordered_id();
            let eid_for_log = eid.clone();
            let cause = m.clone();
            (
                HealthReport {
                    up: false,
                    duration_ms,
                    server_version: None,
                    error_id: Some(eid),
                    error: Some(m),
                },
                Some(HealthFailureLog {
                    severity: Severity::Error,
                    error_id: eid_for_log,
                    cause,
                }),
            )
        },
    }
}

} // verus!
