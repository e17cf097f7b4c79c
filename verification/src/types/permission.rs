//! Permission payloads carried by events and requests.

use vstd::prelude::*;

verus! {

/// A permission ruleset, kept as received.
pub type Ruleset = serde_json::Value;

/// A reply given to a permission request, kept as received.
pub type PermissionReply = serde_json::Value;

/// A permission request raised by the server for a session.
#[derive(Debug, Clone)]
pub struct PermissionRequest {
    /// Request identifier.
    pub id: String,
    /// Session the request belongs to.
    pub session_id: String,
    /// Additional fields from server.
    pub extra: serde_json::Value,
}

} // verus!
