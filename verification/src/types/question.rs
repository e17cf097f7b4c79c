//! Question payloads carried by events.

use vstd::prelude::*;

verus! {

/// A question request raised by the server for a session.
#[derive(Debug, Clone)]
pub struct QuestionRequest {
    /// Request identifier.
    pub id: String,
    /// Session the request belongs to.
    pub session_id: String,
    /// The questions asked, kept as received.
    pub questions: Vec<serde_json::Value>,
    /// Additional fields from server.
    pub extra: serde_json::Value,
}

} // verus!
