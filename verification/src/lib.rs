//! Client-side model of the OpenCode server API: wire types, request
//! construction, session-status aggregation, event routing and the
//! reconnection policy of the server-sent-event stream.

pub mod http;
pub mod json;
pub mod sse;
pub mod text;
pub mod types;
