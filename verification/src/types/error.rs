//! Error payloads reported by the server inside events and message parts.

use vstd::prelude::*;

verus! {

/// An API error reported by the server.
#[derive(Debug, Clone)]
pub struct APIError {
    /// Human-readable error message.
    pub message: String,
    /// Additional fields from server.
    pub extra: serde_json::Value,
}

/// An API error attached to a retry part, kept as received.
pub type ApiError = serde_json::Value;

} // verus!
