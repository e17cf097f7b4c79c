//! Message and content part types, the role view of a message and the
//! status of tool calls.

use std::collections::HashMap;
use vstd::prelude::*;
use crate::text::{opt_str, opt_text, str_equal};
use crate::types::error::ApiError;
use crate::types::project::ModelRef;

verus! {



/// Message info (metadata).
#[derive(Debug, Clone)]
pub struct MessageInfo {
    /// Unique message identifier.
    pub id: String,
    /// Session ID (may be omitted when context implies it).
    pub session_id: Option<String>,
    /// Message role (user, assistant, system).
    pub role: String,
    /// Message timestamps.
    pub time: MessageTime,
    /// Agent name if applicable.
    pub agent: Option<String>,
    /// Message mode (assistant messages, e.g. "plan").
    pub mode: Option<String>,
    /// Model variant.
    pub variant: Option<String>,
    /// Error for failed assistant messages.
    pub error: Option<serde_json::Value>,
    /// Summary for user messages (`{title?, body?, diffs}`) or assistant
    /// messages (`boolean`).
    pub summary: Option<serde_json::Value>,
    // Further fields reported by the server
    /// Message format (TS typed union — `"text"`, `{type:"text"}`, or
    /// `{type:"json_schema", schema:{…}}`).
    pub format: Option<serde_json::Value>,
    /// Model reference.
    pub model: Option<ModelRef>,
    /// System prompt override.
    pub system: Option<String>,
    /// Tools available for this message (map of tool name to enabled status).
    pub tools: HashMap<String, bool>,
    /// Parent message ID.
    pub parent_id: Option<String>,
    /// Model ID (denormalized).
    pub model_id: Option<String>,
    /// Provider ID (denormalized).
    pub provider_id: Option<String>,
    /// Path context for this message.
    pub path: Option<MessagePath>,
    /// Cost of this message, as the bit pattern of its IEEE-754 double.
    pub cost_bits: Option<u64>,
    /// Token usage for this message.
    pub tokens: Option<TokenUsage>,
    /// Structured output/response.
    pub structured: Option<serde_json::Value>,
    /// Finish reason.
    pub finish: Option<String>,
    /// Additional fields from server (forward compatibility).
    pub extra: serde_json::Value,
}

/// Path context for a message.
#[derive(Debug, Clone)]
pub struct MessagePath {
    /// Current working directory.
    pub cwd: String,
    /// Root directory.
    pub root: String,
    /// Additional fields.
    pub extra: serde_json::Value,
}

/// Typed view of message info based on role.
pub enum MessageInfoKind<'a> {
    /// User message.
    User(&'a MessageInfo),
    /// Assistant message.
    Assistant(&'a MessageInfo),
    /// System message.
    System(&'a MessageInfo),
    /// Unknown/other role.
    Other(&'a MessageInfo),
}



/// Message timestamps.
#[derive(Debug, Clone)]
pub struct MessageTime {
    /// Creation timestamp.
    pub created: i64,
    /// Completion timestamp.
    pub completed: Option<i64>,
}

/// Part-level timing (start/end).
#[derive(Debug, Clone)]
pub struct PartTime {
    /// Start timestamp (ms).
    pub start: i64,
    /// End timestamp (ms).
    pub end: Option<i64>,
}

/// Retry-specific timing (TS `{created}`).
#[derive(Debug, Clone)]
pub struct RetryTime {
    /// Creation timestamp.
    pub created: i64,
}

/// A message with its parts (API response format).
///
/// This is the format returned by the message list endpoint.
/// It contains a nested `info` object and a `parts` array.
#[derive(Debug)]
pub struct Message {
    /// Message info/metadata.
    pub info: MessageInfo,
    /// Content parts.
    pub parts: Vec<Part>,
}



/// Alias for backward compatibility.
pub type MessageWithParts = Message;

/// A content part within a message (12 variants).
#[derive(Debug)]
#[non_exhaustive]
pub enum Part {
    /// Text content.
    Text {
        /// Part identifier.
        id: Option<String>,
        /// Text content.
        text: String,
        /// Session ID.
        session_id: Option<String>,
        /// Parent message ID.
        message_id: Option<String>,
        /// Whether this is synthetic (generated).
        synthetic: Option<bool>,
        /// Whether this part is ignored.
        ignored: Option<bool>,
        /// Part timing.
        time: Option<PartTime>,
        /// Additional metadata.
        metadata: Option<serde_json::Value>,
    },
    /// File attachment.
    File {
        /// Part identifier.
        id: Option<String>,
        /// Session ID.
        session_id: Option<String>,
        /// Parent message ID.
        message_id: Option<String>,
        /// MIME type.
        mime: String,
        /// File URL.
        url: String,
        /// Original filename.
        filename: Option<String>,
        /// File source info.
        source: Option<FilePartSource>,
    },
    /// Tool invocation.
    Tool {
        /// Part identifier.
        id: Option<String>,
        /// Session ID.
        session_id: Option<String>,
        /// Parent message ID.
        message_id: Option<String>,
        /// Tool call ID.
        call_id: String,
        /// Tool name.
        tool: String,
        /// Tool execution state (includes input).
        state: Option<ToolState>,
        /// Additional metadata.
        metadata: Option<serde_json::Value>,
    },
    /// Reasoning/thinking content.
    Reasoning {
        /// Part identifier.
        id: Option<String>,
        /// Session ID.
        session_id: Option<String>,
        /// Parent message ID.
        message_id: Option<String>,
        /// Reasoning text.
        text: String,
        /// Part timing.
        time: Option<PartTime>,
        /// Additional metadata.
        metadata: Option<serde_json::Value>,
    },
    /// Step start marker.
    StepStart {
        /// Part identifier.
        id: Option<String>,
        /// Session ID.
        session_id: Option<String>,
        /// Parent message ID.
        message_id: Option<String>,
        /// Snapshot ID.
        snapshot: Option<String>,
    },
    /// Step finish marker.
    StepFinish {
        /// Part identifier.
        id: Option<String>,
        /// Session ID.
        session_id: Option<String>,
        /// Parent message ID.
        message_id: Option<String>,
        /// Finish reason.
        reason: String,
        /// Snapshot ID.
        snapshot: Option<String>,
        /// Cost incurred, as the bit pattern of its IEEE-754 double.
        cost_bits: u64,
        /// Token usage.
        tokens: Option<TokenUsage>,
    },
    /// Snapshot marker.
    Snapshot {
        /// Part identifier.
        id: Option<String>,
        /// Session ID.
        session_id: Option<String>,
        /// Parent message ID.
        message_id: Option<String>,
        /// Snapshot ID.
        snapshot: String,
    },
    /// Patch information.
    Patch {
        /// Part identifier.
        id: Option<String>,
        /// Session ID.
        session_id: Option<String>,
        /// Parent message ID.
        message_id: Option<String>,
        /// Patch hash.
        hash: String,
        /// Affected files.
        files: Vec<String>,
    },
    /// Agent delegation.
    Agent {
        /// Part identifier.
        id: Option<String>,
        /// Session ID.
        session_id: Option<String>,
        /// Parent message ID.
        message_id: Option<String>,
        /// Agent name.
        name: String,
        /// Agent source info.
        source: Option<AgentSource>,
    },
    /// Retry marker.
    Retry {
        /// Part identifier.
        id: Option<String>,
        /// Session ID.
        session_id: Option<String>,
        /// Parent message ID.
        message_id: Option<String>,
        /// Attempt number.
        attempt: u32,
        /// Error that caused retry.
        error: Option<ApiError>,
        /// Timing (TS: `{created}`).
        time: Option<RetryTime>,
    },
    /// Compaction marker.
    Compaction {
        /// Part identifier.
        id: Option<String>,
        /// Session ID.
        session_id: Option<String>,
        /// Parent message ID.
        message_id: Option<String>,
        /// Whether this was automatic.
        auto: bool,
        /// Whether compaction overflowed.
        overflow: Option<bool>,
        /// Tail start message ID after compaction.
        tail_start_id: Option<String>,
    },
    /// Subtask delegation.
    Subtask {
        /// Part identifier.
        id: Option<String>,
        /// Session ID.
        session_id: Option<String>,
        /// Parent message ID.
        message_id: Option<String>,
        /// Subtask prompt.
        prompt: String,
        /// Subtask description.
        description: String,
        /// Agent to handle subtask.
        agent: String,
        /// Model reference.
        model: Option<ModelRef>,
        /// Optional command.
        command: Option<String>,
    },
    /// Unknown part type (forward compatibility).
    Unknown,
}

/// Agent source information.
#[derive(Debug, Clone)]
pub struct AgentSource {
    /// Source value.
    pub value: String,
    /// Start offset.
    pub start: i64,
    /// End offset.
    pub end: i64,
}

// ==================== FilePartSource ====================

/// Text range within a file part source.
#[derive(Debug, Clone)]
pub struct FilePartSourceText {
    /// The text content.
    pub value: String,
    /// Start offset in file.
    pub start: i64,
    /// End offset in file.
    pub end: i64,
}

/// Source information for a file part (internally tagged by "type").
#[derive(Debug, Clone)]
#[non_exhaustive]
pub enum FilePartSource {
    /// File source.
    File {
        /// Text range.
        text: FilePartSourceText,
        /// File path.
        path: String,
        /// Additional fields.
        extra: serde_json::Value,
    },
    /// Symbol source (from LSP).
    Symbol {
        /// Text range.
        text: FilePartSourceText,
        /// File path.
        path: String,
        /// LSP range (kept as Value for now).
        range: serde_json::Value,
        /// Symbol name.
        name: String,
        /// Symbol kind (LSP `SymbolKind`).
        kind: i64,
        /// Additional fields.
        extra: serde_json::Value,
    },
    /// MCP resource source.
    Resource {
        /// Text range.
        text: FilePartSourceText,
        /// MCP client name.
        client_name: String,
        /// Resource URI.
        uri: String,
        /// Additional fields.
        extra: serde_json::Value,
    },
    /// Unknown source type (forward compatibility).
    Unknown,
}

// ==================== ToolState ====================

/// Tool execution time (start only).
#[derive(Debug, Clone)]
pub struct ToolTimeStart {
    /// Start timestamp (ms).
    pub start: i64,
}

/// Tool execution time range.
#[derive(Debug, Clone)]
pub struct ToolTimeRange {
    /// Start timestamp (ms).
    pub start: i64,
    /// End timestamp (ms).
    pub end: i64,
    /// Compacted timestamp if applicable.
    pub compacted: Option<i64>,
}

/// Tool state when pending execution.
#[derive(Debug, Clone)]
pub struct ToolStatePending {
    /// Status field (always "pending").
    pub status: String,
    /// Tool input arguments.
    pub input: serde_json::Value,
    /// Raw input string.
    pub raw: String,
    /// Additional fields.
    pub extra: serde_json::Value,
}

/// Tool state when running.
#[derive(Debug, Clone)]
pub struct ToolStateRunning {
    /// Status field (always "running").
    pub status: String,
    /// Tool input arguments.
    pub input: serde_json::Value,
    /// Display title.
    pub title: Option<String>,
    /// Additional metadata.
    pub metadata: Option<serde_json::Value>,
    /// Execution time.
    pub time: ToolTimeStart,
    /// Additional fields.
    pub extra: serde_json::Value,
}

/// Tool state when completed successfully.
#[derive(Debug)]
pub struct ToolStateCompleted {
    /// Status field (always "completed").
    pub status: String,
    /// Tool input arguments.
    pub input: serde_json::Value,
    /// Tool output.
    pub output: String,
    /// Display title.
    pub title: String,
    /// Additional metadata.
    pub metadata: serde_json::Value,
    /// Execution time range.
    pub time: ToolTimeRange,
    /// File attachments (TS: `Array<FilePart>`).
    pub attachments: Option<Vec<Part>>,
    /// Additional fields.
    pub extra: serde_json::Value,
}

/// Tool state when errored.
#[derive(Debug, Clone)]
pub struct ToolStateError {
    /// Status field (always "error").
    pub status: String,
    /// Tool input arguments.
    pub input: serde_json::Value,
    /// Error message.
    pub error: String,
    /// Additional metadata.
    pub metadata: Option<serde_json::Value>,
    /// Execution time range.
    pub time: ToolTimeRange,
    /// Additional fields.
    pub extra: serde_json::Value,
}

/// State of a tool execution (untagged enum with Unknown fallback).
///
/// Variant order matters for untagged enums - most specific variants with more
/// required fields must come first to avoid less specific variants matching early.
#[derive(Debug)]
#[non_exhaustive]
pub enum ToolState {
    /// Tool completed successfully.
    Completed(ToolStateCompleted),
    /// Tool encountered an error.
    Error(ToolStateError),
    /// Tool is currently running.
    Running(ToolStateRunning),
    /// Tool is pending execution.
    Pending(ToolStatePending),
    /// Unknown state (forward compatibility).
    Unknown(serde_json::Value),
}



/// Token usage information.
#[derive(Debug, Clone)]
pub struct TokenUsage {
    /// Total tokens (sum of input + output + reasoning).
    pub total: Option<u64>,
    /// Input tokens.
    pub input: u64,
    /// Output tokens.
    pub output: u64,
    /// Reasoning tokens.
    pub reasoning: u64,
    /// Cache usage.
    pub cache: Option<CacheUsage>,
    /// Additional fields.
    pub extra: serde_json::Value,
}

/// Cache usage information.
#[derive(Debug, Clone)]
pub struct CacheUsage {
    /// Cache read tokens.
    pub read: u64,
    /// Cache write tokens.
    pub write: u64,
}

/// Request to send a prompt to a session.
#[derive(Debug, Clone)]
pub struct PromptRequest {
    /// Content parts to send.
    pub parts: Vec<PromptPart>,
    /// Message ID to reply to.
    pub message_id: Option<String>,
    /// Model to use.
    pub model: Option<ModelRef>,
    /// Agent to use.
    pub agent: Option<String>,
    /// Whether to skip reply.
    pub no_reply: Option<bool>,
    /// System prompt override.
    pub system: Option<String>,
    /// Message variant.
    pub variant: Option<String>,
}

/// A content part in a prompt request.
#[derive(Debug, Clone)]
#[non_exhaustive]
pub enum PromptPart {
    /// Text content.
    Text {
        /// Text content.
        text: String,
        /// Whether this is synthetic.
        synthetic: Option<bool>,
        /// Whether this part is ignored.
        ignored: Option<bool>,
        /// Additional metadata.
        metadata: Option<serde_json::Value>,
    },
    /// File attachment.
    File {
        /// MIME type.
        mime: String,
        /// File URL.
        url: String,
        /// Original filename.
        filename: Option<String>,
    },
    /// Agent delegation.
    Agent {
        /// Agent name.
        name: String,
    },
    /// Subtask delegation.
    Subtask {
        /// Subtask prompt.
        prompt: String,
        /// Subtask description.
        description: String,
        /// Agent to handle subtask.
        agent: String,
        /// Optional command.
        command: Option<String>,
    },
}

/// Request to execute a command in a session.
#[derive(Debug, Clone)]
pub struct CommandRequest {
    /// Command to execute.
    pub command: String,
    /// Command arguments (passed as `$ARGUMENTS` for template expansion).
    pub arguments: String,
    /// Client-generated message ID (used for idempotency/deduplication).
    pub message_id: Option<String>,
}

/// Request to execute a shell command in a session.
#[derive(Debug, Clone)]
pub struct ShellRequest {
    /// Agent to execute the shell command.
    pub agent: String,
    /// Shell command to execute.
    pub command: String,
    /// Client-generated message ID (used for idempotency/deduplication).
    pub message_id: Option<String>,
    /// Model to use.
    pub model: Option<ModelRef>,
}

impl MessageInfo {
    /// Get a typed view of this message based on its role.
    pub fn kind(&self) -> (r: MessageInfoKind<'_>)
        ensures
            match r {
                MessageInfoKind::User(m) => self.role@ == "user"@ && *m == *self,
                MessageInfoKind::Assistant(m) => self.role@ == "assistant"@ && *m == *self,
                MessageInfoKind::System(m) => self.role@ == "system"@ && *m == *self,
                MessageInfoKind::Other(m) => {
                    &&& self.role@ != "user"@
                    &&& self.role@ != "assistant"@
                    &&& self.role@ != "system"@
                    &&& *m == *self
                },
            },
    {
        let role = self.role.as_str();
        if str_equal(role, "user") {
            MessageInfoKind::User(self)
        } else if str_equal(role, "assistant") {
            MessageInfoKind::Assistant(self)
        } else if str_equal(role, "system") {
            MessageInfoKind::System(self)
        } else {
            MessageInfoKind::Other(self)
        }
    }
}

impl Message {
    /// Get the message ID.
    pub fn id(&self) -> (r: &str)
        ensures
            r@ == self.info.id@,
    {
        self.info.id.as_str()
    }

    /// Get the session ID if present.
    pub fn session_id(&self) -> (r: Option<&str>)
        ensures
            r is None <==> self.info.session_id is None,
            r matches Some(s) ==> opt_text(self.info.session_id) == Some(s@),
    {
        opt_str(&self.info.session_id)
    }

    /// Get the message role.
    pub fn role(&self) -> (r: &str)
        ensures
            r@ == self.info.role@,
    {
        self.info.role.as_str()
    }
}

impl ToolState {
    /// The status text of a tool state: the recorded status of a known state,
    /// `unknown` for an unrecognised one.
    pub open spec fn spec_status(self) -> Seq<char> {
        match self {
            ToolState::Pending(s) => s.status@,
            ToolState::Running(s) => s.status@,
            ToolState::Completed(s) => s.status@,
            ToolState::Error(s) => s.status@,
            ToolState::Unknown(_) => "unknown"@,
        }
    }

    /// Get the status string for this tool state.
    pub fn status(&self) -> (r: &str)
        ensures
            r@ == self.spec_status(),
    {
        match self {
            Self::Pending(s) => s.status.as_str(),
            Self::Running(s) => s.status.as_str(),
            Self::Completed(s) => s.status.as_str(),
            Self::Error(s) => s.status.as_str(),
            Self::Unknown(_) => "unknown",
        }
    }

    /// Get the output if the tool completed successfully.
    pub fn output(&self) -> (r: Option<&str>)
        ensures
            r is Some <==> self is Completed,
            r matches Some(o) ==> o@ == self->Completed_0.output@,
    {
        match self {
            Self::Completed(s) => Some(s.output.as_str()),
            _ => None,
        }
    }

    /// Get the error message if the tool errored.
    pub fn error(&self) -> (r: Option<&str>)
        ensures
            r is Some <==> self is Error,
            r matches Some(e) ==> e@ == self->Error_0.error@,
    {
        match self {
            Self::Error(s) => Some(s.error.as_str()),
            _ => None,
        }
    }

    /// Check if the tool is pending.
    pub fn is_pending(&self) -> (r: bool)
        ensures
            r == (self is Pending),
    {
        matches!(self, Self::Pending(_))
    }

    /// Check if the tool is running.
    pub fn is_running(&self) -> (r: bool)
        ensures
            r == (self is Running),
    {
        matches!(self, Self::Running(_))
    }

    /// Check if the tool completed successfully.
    pub fn is_completed(&self) -> (r: bool)
        ensures
            r == (self is Completed),
    {
        matches!(self, Self::Completed(_))
    }

    /// Check if the tool errored.
    pub fn is_error(&self) -> (r: bool)
        ensures
            r == (self is Error),
    {
        matches!(self, Self::Error(_))
    }
}

/// The status text of a tool state is the status recorded in its payload
/// for each known state (pending, running, completed, error), and
/// `unknown` for an unrecognised one.
pub proof fn lemma_tool_status_is_the_recorded_one(t: ToolState)
    ensures
        t matches ToolState::Pending(s) ==> t.spec_status() == s.status@,
        t matches ToolState::Running(s) ==> t.spec_status() == s.status@,
        t matches ToolState::Completed(s) ==> t.spec_status() == s.status@,
        t matches ToolState::Error(s) ==> t.spec_status() == s.status@,
        t is Unknown ==> t.spec_status() == "unknown"@,
{
}

} // verus!
