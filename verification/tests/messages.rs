use opencode_rs::types::message::{
    MessageInfo, MessageInfoKind, MessageTime, ToolState, ToolStateCompleted, ToolStateError,
    ToolStatePending, ToolStateRunning, ToolTimeRange, ToolTimeStart,
};
use opencode_rs::types::project::ModelRef;
use serde_json::Value;
use std::collections::HashMap;

fn json(text: &str) -> Value {
    serde_json::from_str(text).unwrap()
}

fn info(role: &str) -> MessageInfo {
    MessageInfo {
        id: "m1".to_string(),
        session_id: None,
        role: role.to_string(),
        time: MessageTime { created: 1, completed: None },
        agent: None,
        mode: None,
        variant: None,
        error: None,
        summary: None,
        format: None,
        model: None,
        system: None,
        tools: HashMap::new(),
        parent_id: None,
        model_id: None,
        provider_id: None,
        path: None,
        cost_bits: None,
        tokens: None,
        structured: None,
        finish: None,
        extra: Value::Null,
    }
}

#[test]
fn test_message_info_kind_user() {
    assert!(matches!(info("user").kind(), MessageInfoKind::User(_)));
}

#[test]
fn test_message_info_kind_assistant() {
    assert!(matches!(info("assistant").kind(), MessageInfoKind::Assistant(_)));
}

#[test]
fn test_message_info_kind_system() {
    assert!(matches!(info("system").kind(), MessageInfoKind::System(_)));
}

#[test]
fn test_message_info_kind_other() {
    assert!(matches!(info("tool").kind(), MessageInfoKind::Other(_)));
}

#[test]
fn message_kind_is_case_sensitive_and_exact() {
    assert!(matches!(info("User").kind(), MessageInfoKind::Other(_)));
    assert!(matches!(info("users").kind(), MessageInfoKind::Other(_)));
    assert!(matches!(info("").kind(), MessageInfoKind::Other(_)));
}

#[test]
fn test_tool_state_pending() {
    let state = ToolState::Pending(ToolStatePending {
        status: "pending".to_string(),
        input: json(r#"{"file": "test.rs"}"#),
        raw: "read test.rs".to_string(),
        extra: Value::Null,
    });
    assert!(state.is_pending());
    assert_eq!(state.status(), "pending");
    assert!(state.output().is_none());
}

#[test]
fn test_tool_state_running() {
    let state = ToolState::Running(ToolStateRunning {
        status: "running".to_string(),
        input: json(r#"{"file": "test.rs"}"#),
        title: Some("Reading file".to_string()),
        metadata: None,
        time: ToolTimeStart { start: 1_234_567_890 },
        extra: Value::Null,
    });
    assert!(state.is_running());
    assert_eq!(state.status(), "running");
}

#[test]
fn test_tool_state_completed() {
    let state = ToolState::Completed(ToolStateCompleted {
        status: "completed".to_string(),
        input: json(r#"{"file": "test.rs"}"#),
        output: "file contents here".to_string(),
        title: "Read test.rs".to_string(),
        metadata: json("{}"),
        time: ToolTimeRange { start: 1_234_567_890, end: 1_234_567_900, compacted: None },
        attachments: None,
        extra: Value::Null,
    });
    assert!(state.is_completed());
    assert_eq!(state.status(), "completed");
    assert_eq!(state.output(), Some("file contents here"));
}

#[test]
fn test_tool_state_error() {
    let state = ToolState::Error(ToolStateError {
        status: "error".to_string(),
        input: json(r#"{"file": "missing.rs"}"#),
        error: "File not found".to_string(),
        metadata: None,
        time: ToolTimeRange { start: 1_234_567_890, end: 1_234_567_900, compacted: None },
        extra: Value::Null,
    });
    assert!(state.is_error());
    assert_eq!(state.status(), "error");
    assert_eq!(state.error(), Some("File not found"));
    assert!(state.output().is_none());
}

#[test]
fn test_tool_state_unknown() {
    let state = ToolState::Unknown(json(r#"{"status": "future-status", "someField": "someValue"}"#));
    assert!(matches!(state, ToolState::Unknown(_)));
    assert_eq!(state.status(), "unknown");
    assert!(state.output().is_none() && state.error().is_none());
    assert!(!state.is_pending() && !state.is_running() && !state.is_completed() && !state.is_error());
}

fn model(model_id: Option<&str>, id: Option<&str>) -> ModelRef {
    ModelRef {
        provider_id: Some("anthropic".to_string()),
        model_id: model_id.map(|s| s.to_string()),
        id: id.map(|s| s.to_string()),
        variant: None,
        extra: Value::Null,
    }
}

#[test]
fn resolved_model_id_prefers_model_id() {
    assert_eq!(model(Some("opus-3"), Some("other")).resolved_id(), Some("opus-3"));
    assert_eq!(model(None, Some("turbo-4")).resolved_id(), Some("turbo-4"));
    assert_eq!(model(None, None).resolved_id(), None);
}
