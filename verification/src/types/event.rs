//! Event types of the server-sent event streams and the routing of an event
//! to the session it concerns.

use vstd::prelude::*;
use crate::text::{opt_str, opt_text};
use crate::types::error::APIError;
use crate::types::message::{Message, MessageInfo, Part};
use crate::types::permission::{PermissionReply, PermissionRequest, Ruleset};
use crate::types::question::QuestionRequest;
use crate::types::session::{RevertInfo, Session, SessionSummary, SessionTime, ShareInfo};

verus! {

/// Wrapper for events from /global/event which include directory context.
#[derive(Debug)]
pub struct GlobalEvent {
    /// Directory context for the event.
    pub directory: Option<String>,
    /// Optional project identifier.
    pub project: Option<String>,
    /// Optional workspace identifier.
    pub workspace: Option<String>,
    /// The actual event payload.
    pub payload: GlobalEventPayload,
}

/// Payload union for `/global/event`.
#[derive(Debug)]
pub enum GlobalEventPayload {
    /// Typed sync-event payload wrapper.
    Sync(Box<GlobalSyncEventPayload>),
    /// Standard bus event payload.
    Event(Box<Event>),
}

/// Wrapper for sync payloads emitted on `/global/event`.
#[derive(Debug)]
pub struct GlobalSyncEventPayload {
    /// Payload discriminator.
    pub kind: GlobalSyncPayloadKind,
    /// Nested typed sync event.
    pub sync_event: SyncEvent,
}

/// Discriminator for sync payload wrappers.
#[derive(Debug, Clone, Copy, PartialEq, Eq)]
pub enum GlobalSyncPayloadKind {
    /// Sync payload wrapper.
    Sync,
}

/// Typed sync events carried inside `/global/event`.
#[derive(Debug)]
pub enum SyncEvent {
    /// Full message update sync event.
    MessageUpdated {
        id: String,
        seq: u64,
        aggregate_id: String,
        data: Box<SyncMessageUpdatedData>,
    },
    /// Message removal sync event.
    MessageRemoved {
        id: String,
        seq: u64,
        aggregate_id: String,
        data: Box<SyncMessageRemovedData>,
    },
    /// Message part update sync event.
    MessagePartUpdated {
        id: String,
        seq: u64,
        aggregate_id: String,
        data: Box<SyncMessagePartUpdatedData>,
    },
    /// Message part removal sync event.
    MessagePartRemoved {
        id: String,
        seq: u64,
        aggregate_id: String,
        data: Box<SyncMessagePartRemovedData>,
    },
    /// Session created sync event.
    SessionCreated {
        id: String,
        seq: u64,
        aggregate_id: String,
        data: Box<SyncSessionData>,
    },
    /// Session updated sync event with partial session info.
    SessionUpdated {
        id: String,
        seq: u64,
        aggregate_id: String,
        data: Box<SyncSessionUpdatedData>,
    },
    /// Session deleted sync event.
    SessionDeleted {
        id: String,
        seq: u64,
        aggregate_id: String,
        data: Box<SyncSessionData>,
    },
}

/// Data for `message.updated.1` sync events.
#[derive(Debug)]
pub struct SyncMessageUpdatedData {
    pub session_id: String,
    pub info: Message,
}

/// Data for `message.removed.1` sync events.
#[derive(Debug, Clone)]
pub struct SyncMessageRemovedData {
    pub session_id: String,
    pub message_id: String,
}

/// Data for `message.part.updated.1` sync events.
#[derive(Debug)]
pub struct SyncMessagePartUpdatedData {
    pub session_id: String,
    pub part: Part,
    pub time: u64,
}

/// Data for `message.part.removed.1` sync events.
#[derive(Debug, Clone)]
pub struct SyncMessagePartRemovedData {
    pub session_id: String,
    pub message_id: String,
    pub part_id: String,
}

/// Data for full-session sync events.
#[derive(Debug, Clone)]
pub struct SyncSessionData {
    pub session_id: String,
    pub info: Session,
}

/// Data for `session.updated.1` sync events.
#[derive(Debug, Clone)]
pub struct SyncSessionUpdatedData {
    pub session_id: String,
    pub info: SyncSessionPatch,
}

/// Partial session payload used by sync updates.
#[derive(Debug, Clone)]
pub struct SyncSessionPatch {
    pub id: Option<String>,
    pub slug: Option<String>,
    pub project_id: Option<String>,
    pub directory: Option<String>,
    pub path: Option<String>,
    pub parent_id: Option<String>,
    pub summary: Option<SessionSummary>,
    pub share: Option<ShareInfo>,
    pub title: Option<String>,
    pub version: Option<String>,
    pub time: Option<SessionTime>,
    pub permission: Option<Ruleset>,
    pub revert: Option<RevertInfo>,
    pub extra: serde_json::Value,
}

/// SSE Event from `OpenCode` server (40 variants).
#[derive(Debug)]
#[non_exhaustive]
pub enum Event {
    // ==================== Server/Instance (4) ====================
    /// Server connection established.
    ServerConnected {
        /// Event properties.
        properties: serde_json::Value,
    },

    /// Server heartbeat (sent periodically).
    ServerHeartbeat {
        /// Event properties.
        properties: serde_json::Value,
    },

    /// Server instance disposed.
    ServerInstanceDisposed {
        /// Event properties.
        properties: serde_json::Value,
    },

    /// Global disposed.
    GlobalDisposed {
        /// Event properties.
        properties: serde_json::Value,
    },

    // ==================== Session (8) ====================
    /// Session created.
    SessionCreated {
        /// Event properties with full session info.
        properties: SessionInfoProps,
    },

    /// Session updated.
    SessionUpdated {
        /// Event properties with full session info.
        properties: SessionInfoProps,
    },

    /// Session deleted.
    SessionDeleted {
        /// Event properties with full session info.
        properties: SessionInfoProps,
    },

    /// Session diff.
    SessionDiff {
        /// Event properties.
        properties: serde_json::Value,
    },

    /// Session error.
    SessionError {
        /// Event properties with typed error.
        properties: SessionErrorProps,
    },

    /// Session compacted.
    SessionCompacted {
        /// Event properties.
        properties: serde_json::Value,
    },

    /// Session status changed.
    SessionStatus {
        /// Event properties.
        properties: serde_json::Value,
    },

    /// Session became idle.
    SessionIdle {
        /// Event properties with session ID.
        properties: SessionIdleProps,
    },

    // ==================== Messages (4) ====================
    /// Message updated.
    MessageUpdated {
        /// Event properties with full message info (boxed to reduce enum size).
        properties: Box<MessageUpdatedProps>,
    },

    /// Message removed.
    MessageRemoved {
        /// Event properties with session and message IDs.
        properties: MessageRemovedProps,
    },

    /// Message part updated (streaming).
    MessagePartUpdated {
        /// Event properties (boxed to reduce enum size).
        properties: Box<MessagePartEventProps>,
    },

    /// Message part removed.
    MessagePartRemoved {
        /// Event properties.
        properties: serde_json::Value,
    },

    // ==================== PTY (4) ====================
    /// PTY created.
    PtyCreated {
        /// Event properties.
        properties: serde_json::Value,
    },

    /// PTY updated.
    PtyUpdated {
        /// Event properties.
        properties: serde_json::Value,
    },

    /// PTY exited.
    PtyExited {
        /// Event properties.
        properties: serde_json::Value,
    },

    /// PTY deleted.
    PtyDeleted {
        /// Event properties.
        properties: serde_json::Value,
    },

    // ==================== Permissions (4) ====================
    /// Permission updated.
    PermissionUpdated {
        /// Event properties.
        properties: serde_json::Value,
    },

    /// Permission replied.
    PermissionReplied {
        /// Event properties with reply info.
        properties: PermissionRepliedProps,
    },

    /// Permission asked.
    PermissionAsked {
        /// Event properties with permission request.
        properties: PermissionAskedProps,
    },

    /// Permission replied next.
    PermissionRepliedNext {
        /// Event properties with reply info.
        properties: PermissionRepliedProps,
    },

    // ==================== Project/Files (4) ====================
    /// Project updated.
    ProjectUpdated {
        /// Event properties.
        properties: serde_json::Value,
    },

    /// File edited.
    FileEdited {
        /// Event properties.
        properties: serde_json::Value,
    },

    /// File watcher updated.
    FileWatcherUpdated {
        /// Event properties.
        properties: serde_json::Value,
    },

    /// VCS branch updated.
    VcsBranchUpdated {
        /// Event properties.
        properties: serde_json::Value,
    },

    // ==================== LSP/Tools (4) ====================
    /// LSP updated.
    LspUpdated {
        /// Event properties.
        properties: serde_json::Value,
    },

    /// LSP client diagnostics.
    LspClientDiagnostics {
        /// Event properties.
        properties: serde_json::Value,
    },

    /// Command executed.
    CommandExecuted {
        /// Event properties.
        properties: serde_json::Value,
    },

    /// MCP tools changed.
    McpToolsChanged {
        /// Event properties.
        properties: serde_json::Value,
    },

    /// MCP browser open failed.
    McpBrowserOpenFailed {
        /// Event properties.
        properties: serde_json::Value,
    },

    // ==================== Workspace (2) ====================
    /// Workspace ready.
    WorkspaceReady {
        /// Event properties.
        properties: serde_json::Value,
    },

    /// Workspace failed.
    WorkspaceFailed {
        /// Event properties.
        properties: serde_json::Value,
    },

    // ==================== Worktree (2) ====================
    /// Worktree ready.
    WorktreeReady {
        /// Event properties.
        properties: serde_json::Value,
    },

    /// Worktree failed.
    WorktreeFailed {
        /// Event properties.
        properties: serde_json::Value,
    },

    // ==================== Message Part Delta (1) ====================
    /// Message part delta (field-level streaming).
    MessagePartDelta {
        /// Event properties (boxed to reduce enum size).
        properties: Box<MessagePartEventProps>,
    },

    // ==================== Installation (3) ====================
    /// Installation updated.
    InstallationUpdated {
        /// Event properties.
        properties: serde_json::Value,
    },

    /// Installation update available.
    InstallationUpdateAvailable {
        /// Event properties.
        properties: serde_json::Value,
    },

    /// IDE installed.
    IdeInstalled {
        /// Event properties.
        properties: serde_json::Value,
    },

    // ==================== TUI (4) ====================
    /// TUI prompt append.
    TuiPromptAppend {
        /// Event properties.
        properties: serde_json::Value,
    },

    /// TUI command execute.
    TuiCommandExecute {
        /// Event properties.
        properties: serde_json::Value,
    },

    /// TUI toast show.
    TuiToastShow {
        /// Event properties.
        properties: serde_json::Value,
    },

    /// TUI session select.
    TuiSessionSelect {
        /// Event properties.
        properties: serde_json::Value,
    },

    // ==================== Question (3) ====================
    /// Question asked by the server.
    QuestionAsked {
        /// Event properties with question request.
        properties: QuestionAskedProps,
    },

    /// Question replied by the user.
    QuestionReplied {
        /// Event properties with reply info.
        properties: QuestionRepliedProps,
    },

    /// Question rejected by the user.
    QuestionRejected {
        /// Event properties with rejection info.
        properties: QuestionRejectedProps,
    },

    // ==================== Todo (1) ====================
    /// Todo updated.
    TodoUpdated {
        /// Event properties.
        properties: serde_json::Value,
    },

    // ==================== Session Next (23) ====================
    /// Session next agent switched.
    SessionNextAgentSwitched {
        properties: SessionNextProps,
    },
    /// Session next model switched.
    SessionNextModelSwitched {
        properties: SessionNextProps,
    },
    /// Session next prompted.
    SessionNextPrompted {
        properties: SessionNextProps,
    },
    /// Session next synthetic.
    SessionNextSynthetic {
        properties: SessionNextProps,
    },
    /// Session next shell started.
    SessionNextShellStarted {
        properties: SessionNextProps,
    },
    /// Session next shell ended.
    SessionNextShellEnded {
        properties: SessionNextProps,
    },
    /// Session next step started.
    SessionNextStepStarted {
        properties: SessionNextProps,
    },
    /// Session next step ended.
    SessionNextStepEnded {
        properties: SessionNextProps,
    },
    /// Session next step failed.
    SessionNextStepFailed {
        properties: SessionNextProps,
    },
    /// Session next text started.
    SessionNextTextStarted {
        properties: SessionNextProps,
    },
    /// Session next text delta.
    SessionNextTextDelta {
        properties: SessionNextProps,
    },
    /// Session next text ended.
    SessionNextTextEnded {
        properties: SessionNextProps,
    },
    /// Session next reasoning started.
    SessionNextReasoningStarted {
        properties: SessionNextProps,
    },
    /// Session next reasoning delta.
    SessionNextReasoningDelta {
        properties: SessionNextProps,
    },
    /// Session next reasoning ended.
    SessionNextReasoningEnded {
        properties: SessionNextProps,
    },
    /// Session next tool input started.
    SessionNextToolInputStarted {
        properties: SessionNextProps,
    },
    /// Session next tool input delta.
    SessionNextToolInputDelta {
        properties: SessionNextProps,
    },
    /// Session next tool input ended.
    SessionNextToolInputEnded {
        properties: SessionNextProps,
    },
    /// Session next tool called.
    SessionNextToolCalled {
        properties: SessionNextProps,
    },
    /// Session next tool progress.
    SessionNextToolProgress {
        properties: SessionNextProps,
    },
    /// Session next tool success.
    SessionNextToolSuccess {
        properties: SessionNextProps,
    },
    /// Session next tool failed.
    SessionNextToolFailed {
        properties: SessionNextProps,
    },
    /// Session next retried.
    SessionNextRetried {
        properties: SessionNextProps,
    },
    /// Session next compaction started.
    SessionNextCompactionStarted {
        properties: SessionNextProps,
    },
    /// Session next compaction delta.
    SessionNextCompactionDelta {
        properties: SessionNextProps,
    },
    /// Session next compaction ended.
    SessionNextCompactionEnded {
        properties: SessionNextProps,
    },

    /// Fallback for unknown event types.
    Unknown,
}

// ==================== Session Event Properties ====================

/// Properties for session events (created/updated/deleted).
#[derive(Debug, Clone)]
pub struct SessionInfoProps {
    /// Full session info.
    pub info: Session,
    /// Additional properties.
    pub extra: serde_json::Value,
}

/// Properties for session.idle events.
#[derive(Debug, Clone)]
pub struct SessionIdleProps {
    /// Session ID (1.3.17 uses uppercase ID casing).
    pub session_id: String,
    /// Additional properties.
    pub extra: serde_json::Value,
}

/// Error union that can be `APIError` or unknown value.
#[derive(Debug, Clone)]
pub enum AssistantError {
    /// Known API error.
    Api(APIError),
    /// Unknown error format (forward compatibility).
    Unknown(serde_json::Value),
}

/// Properties for session error events.
#[derive(Debug, Clone)]
pub struct SessionErrorProps {
    /// Session ID.
    pub session_id: Option<String>,
    /// Typed error.
    pub error: Option<AssistantError>,
    /// Additional properties.
    pub extra: serde_json::Value,
}

// ==================== Message Event Properties ====================

/// Properties for message.updated events.
#[derive(Debug, Clone)]
pub struct MessageUpdatedProps {
    /// Full message info.
    pub info: MessageInfo,
    /// Additional properties.
    pub extra: serde_json::Value,
}

/// Properties for message.removed events.
#[derive(Debug, Clone)]
pub struct MessageRemovedProps {
    /// Session ID.
    pub session_id: String,
    /// Message ID.
    pub message_id: String,
    /// Additional properties.
    pub extra: serde_json::Value,
}

/// Properties for message part update events.
#[derive(Debug)]
pub struct MessagePartEventProps {
    /// Session ID.
    pub session_id: Option<String>,
    /// Message ID.
    pub message_id: Option<String>,
    /// Part index.
    pub index: Option<usize>,
    /// Updated part content.
    pub part: Option<Part>,
    /// Streaming delta (incremental text).
    pub delta: Option<String>,
    /// Additional properties.
    pub extra: serde_json::Value,
}

// ==================== Permission Event Properties ====================

/// Properties for permission.asked events.
#[derive(Debug, Clone)]
pub struct PermissionAskedProps {
    /// The permission request (flattened).
    pub request: PermissionRequest,
}

/// Properties for permission.replied events.
#[derive(Debug, Clone)]
pub struct PermissionRepliedProps {
    /// Session ID.
    pub session_id: String,
    /// Request ID that was replied to.
    pub request_id: String,
    /// The reply given.
    pub reply: PermissionReply,
    /// Additional properties.
    pub extra: serde_json::Value,
}

// ==================== Session Next Event Properties ====================

/// Generic properties for session.next.* events.
#[derive(Debug, Clone)]
pub struct SessionNextProps {
    /// Session ID.
    pub session_id: String,
    /// Additional properties.
    pub extra: serde_json::Value,
}

// ==================== Question Event Properties ====================

/// Properties for question.asked events.
#[derive(Debug, Clone)]
pub struct QuestionAskedProps {
    /// The question request.
    pub request: QuestionRequest,
}

/// Properties for question.replied events.
#[derive(Debug, Clone)]
pub struct QuestionRepliedProps {
    /// Session ID.
    pub session_id: String,
    /// Request ID that was replied to.
    pub request_id: String,
    /// The answers given.
    pub answers: Vec<Vec<String>>,
    /// Additional properties.
    pub extra: serde_json::Value,
}

/// Properties for question.rejected events.
#[derive(Debug, Clone)]
pub struct QuestionRejectedProps {
    /// Session ID.
    pub session_id: String,
    /// Request ID that was rejected.
    pub request_id: String,
    /// Optional reason for rejection.
    pub reason: Option<String>,
    /// Additional properties.
    pub extra: serde_json::Value,
}

impl Event {
    /// The session an event concerns, when it names one.
    pub open spec fn spec_session_id(self) -> Option<Seq<char>> {
        match self {
            Self::SessionCreated { properties }
            | Self::SessionUpdated { properties }
            | Self::SessionDeleted { properties } => Some(properties.info.id@),
            Self::SessionIdle { properties } => Some(properties.session_id@),
            Self::SessionError { properties } => opt_text(properties.session_id),
            Self::MessageUpdated { properties } => opt_text(properties.info.session_id),
            Self::MessageRemoved { properties } => Some(properties.session_id@),
            Self::MessagePartUpdated { properties } | Self::MessagePartDelta { properties } => {
                opt_text(properties.session_id)
            }
            Self::PermissionAsked { properties } => Some(properties.request.session_id@),
            Self::PermissionReplied { properties } | Self::PermissionRepliedNext { properties } => {
                Some(properties.session_id@)
            }
            Self::QuestionAsked { properties } => Some(properties.request.session_id@),
            Self::QuestionReplied { properties } => Some(properties.session_id@),
            Self::QuestionRejected { properties } => Some(properties.session_id@),
            Self::SessionNextAgentSwitched { properties }
            | Self::SessionNextModelSwitched { properties }
            | Self::SessionNextPrompted { properties }
            | Self::SessionNextSynthetic { properties }
            | Self::SessionNextShellStarted { properties }
            | Self::SessionNextShellEnded { properties }
            | Self::SessionNextStepStarted { properties }
            | Self::SessionNextStepEnded { properties }
            | Self::SessionNextStepFailed { properties }
            | Self::SessionNextTextStarted { properties }
            | Self::SessionNextTextDelta { properties }
            | Self::SessionNextTextEnded { properties }
            | Self::SessionNextReasoningStarted { properties }
            | Self::SessionNextReasoningDelta { properties }
            | Self::SessionNextReasoningEnded { properties }
            | Self::SessionNextToolInputStarted { properties }
            | Self::SessionNextToolInputDelta { properties }
            | Self::SessionNextToolInputEnded { properties }
            | Self::SessionNextToolCalled { properties }
            | Self::SessionNextToolProgress { properties }
            | Self::SessionNextToolSuccess { properties }
            | Self::SessionNextToolFailed { properties }
            | Self::SessionNextRetried { properties }
            | Self::SessionNextCompactionStarted { properties }
            | Self::SessionNextCompactionDelta { properties }
            | Self::SessionNextCompactionEnded { properties } => Some(properties.session_id@),
            _ => None,
        }
    }
}

impl Event {
    /// Extract `session_id` if present in this event.
    pub fn session_id(&self) -> (r: Option<&str>)
        ensures
            r matches Some(s) ==> self.spec_session_id() == Some(s@),
            r is None ==> self.spec_session_id() is None,
    {
        match self {
            Self::SessionCreated { properties }
            | Self::SessionUpdated { properties }
            | Self::SessionDeleted { properties } => Some(properties.info.id.as_str()),
            Self::SessionIdle { properties } => Some(properties.session_id.as_str()),
            Self::SessionError { properties } => opt_str(&properties.session_id),
            Self::MessageUpdated { properties } => opt_str(&properties.info.session_id),
            Self::MessageRemoved { properties } => Some(properties.session_id.as_str()),
            Self::MessagePartUpdated { properties } | Self::MessagePartDelta { properties } => {
                opt_str(&properties.session_id)
            }
            Self::PermissionAsked { properties } => Some(properties.request.session_id.as_str()),
            Self::PermissionReplied { properties } | Self::PermissionRepliedNext { properties } => {
                Some(properties.session_id.as_str())
            }
            Self::QuestionAsked { properties } => Some(properties.request.session_id.as_str()),
            Self::QuestionReplied { properties } => Some(properties.session_id.as_str()),
            Self::QuestionRejected { properties } => Some(properties.session_id.as_str()),
            Self::SessionNextAgentSwitched { properties }
            | Self::SessionNextModelSwitched { properties }
            | Self::SessionNextPrompted { properties }
            | Self::SessionNextSynthetic { properties }
            | Self::SessionNextShellStarted { properties }
            | Self::SessionNextShellEnded { properties }
            | Self::SessionNextStepStarted { properties }
            | Self::SessionNextStepEnded { properties }
            | Self::SessionNextStepFailed { properties }
            | Self::SessionNextTextStarted { properties }
            | Self::SessionNextTextDelta { properties }
            | Self::SessionNextTextEnded { properties }
            | Self::SessionNextReasoningStarted { properties }
            | Self::SessionNextReasoningDelta { properties }
            | Self::SessionNextReasoningEnded { properties }
            | Self::SessionNextToolInputStarted { properties }
            | Self::SessionNextToolInputDelta { properties }
            | Self::SessionNextToolInputEnded { properties }
            | Self::SessionNextToolCalled { properties }
            | Self::SessionNextToolProgress { properties }
            | Self::SessionNextToolSuccess { properties }
            | Self::SessionNextToolFailed { properties }
            | Self::SessionNextRetried { properties }
            | Self::SessionNextCompactionStarted { properties }
            | Self::SessionNextCompactionDelta { properties }
            | Self::SessionNextCompactionEnded { properties } => Some(properties.session_id.as_str()),
            _ => None,
        }
    }


    /// Check if this is a heartbeat event.
    pub fn is_heartbeat(&self) -> (r: bool)
        ensures
            r == (self is ServerHeartbeat),
    {
        matches!(self, Self::ServerHeartbeat { .. })
    }

    /// Check if this is a connection event.
    pub fn is_connected(&self) -> (r: bool)
        ensures
            r == (self is ServerConnected),
    {
        matches!(self, Self::ServerConnected { .. })
    }
}

/// Routing law: the session an event concerns is the session id field that
/// its properties carry (absent when the field is optional and unset), and
/// events whose properties carry no session id concern no session. So a
/// per-session subscription receives exactly the events whose carried
/// session id is its own.
pub proof fn lemma_session_id_is_the_carried_field(e: Event)
    ensures
        e is ServerConnected ==> e.spec_session_id() is None,
        e is ServerHeartbeat ==> e.spec_session_id() is None,
        e is ServerInstanceDisposed ==> e.spec_session_id() is None,
        e is GlobalDisposed ==> e.spec_session_id() is None,
        e matches Event::SessionCreated { properties: p } ==> e.spec_session_id() == Some(p.info.id@),
        e matches Event::SessionUpdated { properties: p } ==> e.spec_session_id() == Some(p.info.id@),
        e matches Event::SessionDeleted { properties: p } ==> e.spec_session_id() == Some(p.info.id@),
        e is SessionDiff ==> e.spec_session_id() is None,
        e matches Event::SessionError { properties: p } ==> e.spec_session_id() == opt_text(p.session_id),
        e is SessionCompacted ==> e.spec_session_id() is None,
        e is SessionStatus ==> e.spec_session_id() is None,
        e matches Event::SessionIdle { properties: p } ==> e.spec_session_id() == Some(p.session_id@),
        e matches Event::MessageUpdated { properties: p } ==> e.spec_session_id() == opt_text(p.info.session_id),
        e matches Event::MessageRemoved { properties: p } ==> e.spec_session_id() == Some(p.session_id@),
        e matches Event::MessagePartUpdated { properties: p } ==> e.spec_session_id() == opt_text(p.session_id),
        e is MessagePartRemoved ==> e.spec_session_id() is None,
        e is PtyCreated ==> e.spec_session_id() is None,
        e is PtyUpdated ==> e.spec_session_id() is None,
        e is PtyExited ==> e.spec_session_id() is None,
        e is PtyDeleted ==> e.spec_session_id() is None,
        e is PermissionUpdated ==> e.spec_session_id() is None,
        e matches Event::PermissionReplied { properties: p } ==> e.spec_session_id() == Some(p.session_id@),
        e matches Event::PermissionAsked { properties: p } ==> e.spec_session_id() == Some(p.request.session_id@),
        e matches Event::PermissionRepliedNext { properties: p } ==> e.spec_session_id() == Some(p.session_id@),
        e is ProjectUpdated ==> e.spec_session_id() is None,
        e is FileEdited ==> e.spec_session_id() is None,
        e is FileWatcherUpdated ==> e.spec_session_id() is None,
        e is VcsBranchUpdated ==> e.spec_session_id() is None,
        e is LspUpdated ==> e.spec_session_id() is None,
        e is LspClientDiagnostics ==> e.spec_session_id() is None,
        e is CommandExecuted ==> e.spec_session_id() is None,
        e is McpToolsChanged ==> e.spec_session_id() is None,
        e is McpBrowserOpenFailed ==> e.spec_session_id() is None,
        e is WorkspaceReady ==> e.spec_session_id() is None,
        e is WorkspaceFailed ==> e.spec_session_id() is None,
        e is WorktreeReady ==> e.spec_session_id() is None,
        e is WorktreeFailed ==> e.spec_session_id() is None,
        e matches Event::MessagePartDelta { properties: p } ==> e.spec_session_id() == opt_text(p.session_id),
        e is InstallationUpdated ==> e.spec_session_id() is None,
        e is InstallationUpdateAvailable ==> e.spec_session_id() is None,
        e is IdeInstalled ==> e.spec_session_id() is None,
        e is TuiPromptAppend ==> e.spec_session_id() is None,
        e is TuiCommandExecute ==> e.spec_session_id() is None,
        e is TuiToastShow ==> e.spec_session_id() is None,
        e is TuiSessionSelect ==> e.spec_session_id() is None,
        e matches Event::QuestionAsked { properties: p } ==> e.spec_session_id() == Some(p.request.session_id@),
        e matches Event::QuestionReplied { properties: p } ==> e.spec_session_id() == Some(p.session_id@),
        e matches Event::QuestionRejected { properties: p } ==> e.spec_session_id() == Some(p.session_id@),
        e is TodoUpdated ==> e.spec_session_id() is None,
        e matches Event::SessionNextAgentSwitched { properties: p } ==> e.spec_session_id() == Some(p.session_id@),
        e matches Event::SessionNextModelSwitched { properties: p } ==> e.spec_session_id() == Some(p.session_id@),
        e matches Event::SessionNextPrompted { properties: p } ==> e.spec_session_id() == Some(p.session_id@),
        e matches Event::SessionNextSynthetic { properties: p } ==> e.spec_session_id() == Some(p.session_id@),
        e matches Event::SessionNextShellStarted { properties: p } ==> e.spec_session_id() == Some(p.session_id@),
        e matches Event::SessionNextShellEnded { properties: p } ==> e.spec_session_id() == Some(p.session_id@),
        e matches Event::SessionNextStepStarted { properties: p } ==> e.spec_session_id() == Some(p.session_id@),
        e matches Event::SessionNextStepEnded { properties: p } ==> e.spec_session_id() == Some(p.session_id@),
        e matches Event::SessionNextStepFailed { properties: p } ==> e.spec_session_id() == Some(p.session_id@),
        e matches Event::SessionNextTextStarted { properties: p } ==> e.spec_session_id() == Some(p.session_id@),
        e matches Event::SessionNextTextDelta { properties: p } ==> e.spec_session_id() == Some(p.session_id@),
        e matches Event::SessionNextTextEnded { properties: p } ==> e.spec_session_id() == Some(p.session_id@),
        e matches Event::SessionNextReasoningStarted { properties: p } ==> e.spec_session_id() == Some(p.session_id@),
        e matches Event::SessionNextReasoningDelta { properties: p } ==> e.spec_session_id() == Some(p.session_id@),
        e matches Event::SessionNextReasoningEnded { properties: p } ==> e.spec_session_id() == Some(p.session_id@),
        e matches Event::SessionNextToolInputStarted { properties: p } ==> e.spec_session_id() == Some(p.session_id@),
        e matches Event::SessionNextToolInputDelta { properties: p } ==> e.spec_session_id() == Some(p.session_id@),
        e matches Event::SessionNextToolInputEnded { properties: p } ==> e.spec_session_id() == Some(p.session_id@),
        e matches Event::SessionNextToolCalled { properties: p } ==> e.spec_session_id() == Some(p.session_id@),
        e matches Event::SessionNextToolProgress { properties: p } ==> e.spec_session_id() == Some(p.session_id@),
        e matches Event::SessionNextToolSuccess { properties: p } ==> e.spec_session_id() == Some(p.session_id@),
        e matches Event::SessionNextToolFailed { properties: p } ==> e.spec_session_id() == Some(p.session_id@),
        e matches Event::SessionNextRetried { properties: p } ==> e.spec_session_id() == Some(p.session_id@),
        e matches Event::SessionNextCompactionStarted { properties: p } ==> e.spec_session_id() == Some(p.session_id@),
        e matches Event::SessionNextCompactionDelta { properties: p } ==> e.spec_session_id() == Some(p.session_id@),
        e matches Event::SessionNextCompactionEnded { properties: p } ==> e.spec_session_id() == Some(p.session_id@),
        e is Unknown ==> e.spec_session_id() is None,
{
}

} // verus!
