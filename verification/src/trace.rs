use vstd::prelude::*;
use crate::headers::{
    HeaderModel, get_header_model, lemma_set_then_get, redact_model, redact_sensitive,
    set_header, set_header_model,
};
use crate::ids::fresh_random_id;
use crate::meta::service_version;
use crate::text::is_uuid_text;

verus! {

/// The per-request identifier: assigned once at entry, read by logging, and
/// echoed in the response's `x-request-id` header. Never reassigned.
#[derive(Debug, Clone)]
pub struct RequestId(pub String);

impl RequestId {
    /// Every assigned id has the canonical unique-id form.
    pub open spec fn wf(&self) -> bool {
        is_uuid_text(self.0@)
    }

    /// Draws a fresh id for an inbound request.
    pub fn fresh() -> (r: RequestId)
        ensures
            r.wf(),
    {
        RequestId(fresh_random_id())
    }
}

/// What the middleware reads of an inbound request.
#[derive(Debug)]
pub struct RequestMeta {
    pub method: String,
    pub uri: String,
    pub http_version: String,
    pub headers: Vec<(String, String)>,
}

/// The fields of the logging scope opened around a request: the request id,
/// the request line, and the static service-version tag.
#[derive(Debug)]
pub struct SpanData {
    pub request_id: String,
    pub method: String,
    pub uri: String,
    pub http_version: String,
    pub api_version: String,
}

/// The "request received" event: the request's headers, redacted.
#[derive(Debug)]
pub struct RequestEvent {
    pub headers: Vec<(String, String)>,
}

/// The "response sent" event: status, elapsed integer milliseconds, and the
/// response's headers, redacted.
#[derive(Debug)]
pub struct ResponseEvent {
    pub status: u16,
    pub duration_ms: u64,
    pub headers: Vec<(String, String)>,
}

/// Builds the logging scope for a request.
#[derive(Debug, Clone, Copy)]
pub struct CustomMakeSpan;

impl CustomMakeSpan {
    /// The span carries exactly the assigned id, the request line, and the
    /// service-version tag.
    pub fn make_span(&self, id: &RequestId, req: &RequestMeta) -> (r: SpanData)
        ensures
            r.request_id@ == id.0@,
            r.method@ == req.method@,
            r.uri@ == req.uri@,
            r.http_version@ == req.http_version@,
            r.api_version@ == service_version(),
    {
        SpanData {
            request_id: id.0.clone(),
            method: req.method.clone(),
            uri: req.uri.clone(),
            http_version: req.http_version.clone(),
            api_version: "0.1.0".to_owned(),
        }
    }
}

/// The event logged when a request arrives: its headers with every sensitive
/// value replaced by the redaction marker.
pub fn request_event(req: &RequestMeta) -> (r: RequestEvent)
    ensures
        r.headers.deep_view() == redact_model(req.headers.deep_view()),
{
    RequestEvent { headers: redact_sensitive(&req.headers) }
}

/// The event logged when the response leaves: its status, the elapsed
/// milliseconds, and its headers redacted.
pub fn response_event(status: u16, duration_ms: u64, headers: &Vec<(String, String)>) -> (r:
    ResponseEvent)
    ensures
        r.status == status,
        r.duration_ms == duration_ms,
        r.headers.deep_view() == redact_model(headers.deep_view()),
{
    ResponseEvent { status, duration_ms, headers: redact_sensitive(headers) }
}

/// Writes the request id into the response headers, replacing anything a
/// downstream stage may have put there.
pub fn attach_request_id(headers: &Vec<(String, String)>, id: &RequestId) -> (r: Vec<(
    String,
    String,
)>)
    ensures
        r.deep_view() == set_header_model(headers.deep_view(), "x-request-id"@, id.0@),
{
    set_header(headers, "x-request-id", id.0.as_str())
}

/// Every response that passed the middleware carries the request id: looking
/// `x-request-id` up in the written headers yields the assigned id, which has
/// the canonical unique-id form.
pub proof fn lemma_response_carries_request_id(hs: HeaderModel, id: RequestId)
    requires
        id.wf(),
    ensures
        get_header_model(set_header_model(hs, "x-request-id"@, id.0@), "x-request-id"@)
            == Some(id.0@),
        is_uuid_text(id.0@),
{
    lemma_set_then_get(hs, "x-request-id"@, id.0@);
}

} // verus!
