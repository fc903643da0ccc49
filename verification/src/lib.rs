//! A verified core for a small web service: a uniform JSON error envelope,
//! request-tracing middleware with header redaction, a dispatch table with a
//! catch-all, and a database health report. The HTTP server, the database
//! pool and the log sink live at the boundary and call into these functions
//! with plain values.

mod ids;

pub mod docs;
pub mod error;
pub mod headers;
pub mod health;
pub mod json;
pub mod meta;
pub mod router;
pub mod text;
pub mod trace;
