use vstd::prelude::*;
use crate::ids::fresh_ordered_id;
use crate::json::{JsonVal, JsonValue, get_entry, get_field, json_model, obj_keys};
use crate::text::is_uuid_text;

verus! {

/// True of client-error HTTP statuses: those the envelope logs as warnings.
pub open spec fn is_client_error(status: u16) -> bool {
    400 <= status < 500
}

/// True of server-error HTTP statuses: those the envelope logs as errors.
pub open spec fn is_server_error(status: u16) -> bool {
    500 <= status < 600
}

/// True of every status an error envelope may carry.
pub open spec fn is_error_status(status: u16) -> bool {
    400 <= status < 600
}

/// Rank of a log record: client errors warn, server errors are errors.
#[derive(Clone, Copy, PartialEq, Eq, Structural, Debug)]
pub enum Severity {
    Warning,
    Error,
}

/// The severity an error status is logged at: warning for client errors,
/// error for server errors.
pub open spec fn severity_of(status: u16) -> Severity {
    if is_server_error(status) {
        Severity::Error
    } else {
        Severity::Warning
    }
}

/// One structured log record, emitted when an envelope is turned into a
/// response. The cause, when present, appears here and only here: it is
/// server-side detail and never part of the response body.
#[derive(Debug)]
pub struct LogRecord {
    pub severity: Severity,
    pub status: u16,
    pub error_id: String,
    pub message: String,
    pub details: JsonValue,
    pub cause: Option<String>,
}

/// The uniform error envelope: an id fresh at construction, an error status,
/// a human-readable message, optional structured details, and an optional
/// internal cause that is logged but never sent to the client.
#[derive(Debug)]
pub struct Error {
    pub id: String,
    pub status: u16,
    pub message: String,
    pub details: Option<JsonValue>,
    pub cause: Option<String>,
}

/// What an error response looks like on the wire, together with the single
/// log record the conversion emits.
#[derive(Debug)]
pub struct ErrorResponse {
    pub status: u16,
    pub body: JsonValue,
    pub log: LogRecord,
}

impl Error {
    /// Every constructed envelope satisfies this: a well-shaped id, an error
    /// status, and a non-empty message.
    pub open spec fn wf(&self) -> bool {
        &&& is_uuid_text(self.id@)
        &&& is_error_status(self.status)
        &&& self.message@.len() > 0
    }

    /// The details that reach the wire: the attached value, or the empty
    /// object where none was attached.
    pub open spec fn details_model(&self) -> JsonVal {
        match self.details {
            Option::Some(d) => d.deep_view(),
            Option::None => JsonVal::Obj(Seq::<(Seq<char>, JsonVal)>::empty()),
        }
    }

    /// The response body of the envelope: a JSON object holding exactly the
    /// keys `id`, `message` and `details`.
    pub open spec fn body_model(&self) -> JsonVal {
        JsonVal::Obj(seq![
            ("id"@, JsonVal::Str(self.id@)),
            ("message"@, JsonVal::Str(self.message@)),
            ("details"@, self.details_model()),
        ])
    }

    /// Constructs an envelope with a fresh id and no details.
    pub fn new(status: u16, message: String) -> (r: Error)
        requires
            is_error_status(status),
            message@.len() > 0,
        ensures
            r.wf(),
            r.status == status,
            r.message == message,
            r.details is None,
            r.cause is None,
    {
        Error { id: fresh_ordered_id(), status, message, details: None, cause: None }
    }

    /// Returns the envelope with the given details attached; every other
    /// field is kept.
    pub fn details(self, value: JsonValue) -> (r: Error)
        ensures
            r == (Error { details: Some(value), ..self }),
    {
        Error { details: Some(value), ..self }
    }

    /// Wraps an arbitrary internal fault: a server error with the fixed
    /// generic message; the cause is kept for the log record only.
    pub fn internal(cause: String) -> (r: Error)
        ensures
            r.wf(),
            r.status == 500,
            r.message@ == "an internal error occurred"@,
            r.details is None,
            r.cause == Some(cause),
    {
        proof {
            reveal_strlit("an internal error occurred");
        }
        Error {
            id: fresh_ordered_id(),
            status: 500,
            message: "an internal error occurred".to_owned(),
            details: None,
            cause: Some(cause),
        }
    }

    /// The terminal conversion: the wire status and body, and the one log
    /// record that the caller emits before sending the response. The body is
    /// exactly `{ "id": ..., "message": ..., "details": ... }`; the cause is
    /// on the log record alone.
    pub fn into_response(self) -> (r: ErrorResponse)
        requires
            self.wf(),
        ensures
            r.status == self.status,
            r.body.deep_view() == self.body_model(),
            r.log.severity == severity_of(self.status),
            r.log.status == self.status,
            r.log.error_id@ == self.id@,
            r.log.message@ == self.message@,
            r.log.details.deep_view() == self.details_model(),
            r.log.cause == self.cause,
    {
        let severity = if self.status < 500 {
            Severity::Warning
        } else {
            Severity::Error
        };
        let details = match self.details {
            Some(d) => d,
            None => JsonValue::empty_object(),
        };
        let id_val = JsonValue::Str(self.id.clone());
        let msg_val = JsonValue::Str(self.message.clone());
        let det_val = details.clone();
        let fields = vec![
            ("id".to_owned(), id_val),
            ("message".to_owned(), msg_val),
            ("details".to_owned(), det_val),
        ];
        let body = JsonValue::Obj(fields);
        proof {
            assert(fields@.len() == 3);
            assert(json_model(fields@[0].1) == JsonVal::Str(self.id@));
            assert(json_model(fields@[1].1) == JsonVal::Str(self.message@));
            assert(json_model(fields@[2].1) == self.details_model());
            assert(body.deep_view()->Obj_0[0] == ("id"@, JsonVal::Str(self.id@)));
            assert(body.deep_view()->Obj_0[1] == ("message"@, JsonVal::Str(self.message@)));
            assert(body.deep_view()->Obj_0[2] == ("details"@, self.details_model()));
            assert(body.deep_view()->Obj_0 =~= self.body_model()->Obj_0);
            assert(body.deep_view() =~= self.body_model());
        }
        ErrorResponse {
            status: self.status,
            body,
            log: LogRecord {
                severity,
                status: self.status,
                error_id: self.id,
                message: self.message,
                details,
                cause: self.cause,
            },
        }
    }
}

/// The response body of a well-formed envelope holds exactly the keys `id`,
/// `message` and `details`; the `id` entry is the envelope's id, which has
/// the canonical unique-id form, and the `message` entry is its message.
pub proof fn lemma_body_exact_keys(e: Error)
    requires
        e.wf(),
    ensures
        obj_keys(e.body_model()) =~= set!["id"@, "message"@, "details"@],
        get_field(e.body_model(), "id"@) == Some(JsonVal::Str(e.id@)),
        get_field(e.body_model(), "message"@) == Some(JsonVal::Str(e.message@)),
        get_field(e.body_model(), "details"@) == Some(e.details_model()),
        is_uuid_text(e.id@),
{
    reveal_strlit("id");
    reveal_strlit("message");
    reveal_strlit("details");
    let entries = e.body_model()->Obj_0;
    assert(entries.len() == 3);
    assert(entries[0].0 == "id"@ && entries[1].0 == "message"@ && entries[2].0 == "details"@);
    assert("message"@ != "id"@);
    assert("details"@[0] == 'd' && "message"@[0] == 'm');
    assert("details"@ != "id"@ && "details"@ != "message"@);
    let t1 = entries.skip(1);
    let t2 = t1.skip(1);
    assert(t1.len() == 2 && t1[0] == entries[1] && t1[1] == entries[2]);
    assert(t2.len() == 1 && t2[0] == entries[2]);
    assert(t1.skip(1) =~= t2);
    assert(get_entry(entries, "id"@) == Some(JsonVal::Str(e.id@)));
    assert(get_entry(entries, "message"@) == get_entry(t1, "message"@));
    assert(get_entry(t1, "message"@) == Some(JsonVal::Str(e.message@)));
    assert(get_entry(entries, "details"@) == get_entry(t1, "details"@));
    assert(get_entry(t1, "details"@) == get_entry(t2, "details"@));
    assert(get_entry(t2, "details"@) == Some(e.details_model()));
    let keys = set!["id"@, "message"@, "details"@];
    assert forall|k: Seq<char>| obj_keys(e.body_model()).contains(k) implies keys.contains(k) by {
        let i = choose|i: int| 0 <= i < entries.len() && entries[i].0 == k;
        assert(i == 0 || i == 1 || i == 2);
    }
    assert forall|k: Seq<char>| keys.contains(k) implies obj_keys(e.body_model()).contains(k) by {
        if k == "id"@ {
            assert(entries[0].0 == k);
        } else if k == "message"@ {
            assert(entries[1].0 == k);
        } else {
            assert(entries[2].0 == k);
        }
    }
}

/// Attaching details and converting to a response round-trips: the body's
/// `details` entry is exactly the attached value.
pub proof fn lemma_details_round_trip(e: Error, d: JsonValue)
    requires
        e.wf(),
    ensures
        get_field((Error { details: Some(d), ..e }).body_model(), "details"@)
            == Some(d.deep_view()),
{
    let attached = Error { details: Some(d), ..e };
    assert(attached.wf());
    lemma_body_exact_keys(attached);
}

} // verus!
