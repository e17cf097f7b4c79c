use opencode_rs::sse::event_in_session;
use opencode_rs::types::event::{
    Event, MessagePartEventProps, MessageRemovedProps, MessageUpdatedProps, PermissionAskedProps,
    PermissionRepliedProps, QuestionAskedProps, QuestionRejectedProps, QuestionRepliedProps,
    SessionErrorProps, SessionIdleProps, SessionInfoProps, SessionNextProps,
};
use opencode_rs::types::message::{MessageInfo, MessageTime};
use opencode_rs::types::permission::PermissionRequest;
use opencode_rs::types::question::QuestionRequest;
use opencode_rs::types::session::Session;
use serde_json::Value;
use std::collections::HashMap;

fn json(text: &str) -> Value {
    serde_json::from_str(text).unwrap()
}

fn session(id: &str, title: &str) -> Session {
    Session {
        id: id.to_string(),
        slug: id.to_string(),
        project_id: None,
        directory: None,
        path: None,
        parent_id: None,
        summary: None,
        share: None,
        title: title.to_string(),
        version: "1.0".to_string(),
        time: None,
        permission: None,
        revert: None,
        extra: Value::Null,
    }
}

fn message_info(id: &str, session_id: Option<&str>, role: &str) -> MessageInfo {
    MessageInfo {
        id: id.to_string(),
        session_id: session_id.map(|s| s.to_string()),
        role: role.to_string(),
        time: MessageTime { created: 1_234_567_890, completed: None },
        agent: None,
        mode: None,
        variant: None,
        error: None,
        summary: None,
        format: None,
        model: None,
        system: None,
        tools: HashMap::new(),
        parent_id: None,
        model_id: None,
        provider_id: None,
        path: None,
        cost_bits: None,
        tokens: None,
        structured: None,
        finish: None,
        extra: Value::Null,
    }
}

fn part_props(session_id: Option<&str>, delta: Option<&str>, index: Option<usize>) -> MessagePartEventProps {
    MessagePartEventProps {
        session_id: session_id.map(|s| s.to_string()),
        message_id: Some("m1".to_string()),
        index,
        part: None,
        delta: delta.map(|s| s.to_string()),
        extra: Value::Null,
    }
}

fn question_asked(id: &str, session_id: &str) -> Event {
    Event::QuestionAsked {
        properties: QuestionAskedProps {
            request: QuestionRequest {
                id: id.to_string(),
                session_id: session_id.to_string(),
                questions: vec![json(r#"{"question": "Continue?"}"#)],
                extra: Value::Null,
            },
        },
    }
}

fn question_replied(session_id: &str, answers: Vec<Vec<String>>) -> Event {
    Event::QuestionReplied {
        properties: QuestionRepliedProps {
            session_id: session_id.to_string(),
            request_id: "req-1".to_string(),
            answers,
            extra: Value::Null,
        },
    }
}

fn question_rejected(session_id: &str) -> Event {
    Event::QuestionRejected {
        properties: QuestionRejectedProps {
            session_id: session_id.to_string(),
            request_id: "req-1".to_string(),
            reason: None,
            extra: Value::Null,
        },
    }
}

#[test]
fn test_question_event_session_id_extraction() {
    let asked = question_asked("req-1", "sess-asked");
    assert_eq!(asked.session_id(), Some("sess-asked"));

    let replied = question_replied("sess-replied", Vec::new());
    assert_eq!(replied.session_id(), Some("sess-replied"));

    let rejected = question_rejected("sess-rejected");
    assert_eq!(rejected.session_id(), Some("sess-rejected"));
}

#[test]
fn test_event_deserialize_session_created() {
    let event = Event::SessionCreated {
        properties: SessionInfoProps { info: session("sess-123", "Test Session"), extra: Value::Null },
    };
    assert!(matches!(event, Event::SessionCreated { .. }));
    assert_eq!(event.session_id(), Some("sess-123"));
}

#[test]
fn test_event_deserialize_heartbeat() {
    let event = Event::ServerHeartbeat { properties: json("{}") };
    assert!(matches!(event, Event::ServerHeartbeat { .. }));
    assert!(event.is_heartbeat());
}

#[test]
fn test_event_deserialize_permission_asked() {
    let event = Event::PermissionAsked {
        properties: PermissionAskedProps {
            request: PermissionRequest {
                id: "req-123".to_string(),
                session_id: "sess-456".to_string(),
                extra: json(r#"{"permission": "file.write", "patterns": ["**/*.rs"]}"#),
            },
        },
    };
    assert!(matches!(event, Event::PermissionAsked { .. }));
    assert_eq!(event.session_id(), Some("sess-456"));
}

#[test]
fn test_event_deserialize_permission_replied() {
    let event = Event::PermissionReplied {
        properties: PermissionRepliedProps {
            session_id: "sess-456".to_string(),
            request_id: "req-123".to_string(),
            reply: json(r#""always""#),
            extra: Value::Null,
        },
    };
    assert!(matches!(event, Event::PermissionReplied { .. }));
    assert_eq!(event.session_id(), Some("sess-456"));
}

#[test]
fn test_event_deserialize_message_updated() {
    let event = Event::MessageUpdated {
        properties: Box::new(MessageUpdatedProps {
            info: message_info("msg-123", Some("sess-456"), "assistant"),
            extra: Value::Null,
        }),
    };
    assert!(matches!(event, Event::MessageUpdated { .. }));
    assert_eq!(event.session_id(), Some("sess-456"));
}

#[test]
fn test_event_deserialize_message_removed() {
    let event = Event::MessageRemoved {
        properties: MessageRemovedProps {
            session_id: "sess-456".to_string(),
            message_id: "msg-123".to_string(),
            extra: Value::Null,
        },
    };
    assert!(matches!(event, Event::MessageRemoved { .. }));
    assert_eq!(event.session_id(), Some("sess-456"));
}

#[test]
fn test_event_deserialize_question_asked() {
    let event = question_asked("req-123", "sess-456");
    assert!(matches!(event, Event::QuestionAsked { .. }));
    assert_eq!(event.session_id(), Some("sess-456"));
}

#[test]
fn test_message_part_delta_deserialize() {
    let event = Event::MessagePartDelta { properties: Box::new(part_props(Some("ses-1"), None, Some(0))) };
    assert!(matches!(event, Event::MessagePartDelta { .. }));
    assert_eq!(event.session_id(), Some("ses-1"));
}

#[test]
fn events_without_a_session_name_none() {
    assert_eq!(Event::ServerConnected { properties: Value::Null }.session_id(), None);
    assert_eq!(Event::PtyCreated { properties: json(r#"{"id": "pty1"}"#) }.session_id(), None);
    assert_eq!(Event::Unknown.session_id(), None);
    let part = Event::MessagePartUpdated { properties: Box::new(part_props(None, Some("Hello"), None)) };
    assert_eq!(part.session_id(), None);
    let err = Event::SessionError {
        properties: SessionErrorProps { session_id: None, error: None, extra: Value::Null },
    };
    assert_eq!(err.session_id(), None);
    let msg = Event::MessageUpdated {
        properties: Box::new(MessageUpdatedProps { info: message_info("m", None, "user"), extra: Value::Null }),
    };
    assert_eq!(msg.session_id(), None);
}

#[test]
fn session_scoped_events_name_their_session() {
    let idle = Event::SessionIdle { properties: SessionIdleProps { session_id: "s9".to_string(), extra: Value::Null } };
    assert_eq!(idle.session_id(), Some("s9"));
    let next = Event::SessionNextToolCalled {
        properties: SessionNextProps { session_id: "s7".to_string(), extra: Value::Null },
    };
    assert_eq!(next.session_id(), Some("s7"));
    let deleted = Event::SessionDeleted {
        properties: SessionInfoProps { info: session("s3", ""), extra: Value::Null },
    };
    assert_eq!(deleted.session_id(), Some("s3"));
}

#[test]
fn heartbeat_and_connected_are_told_apart() {
    let hb = Event::ServerHeartbeat { properties: Value::Null };
    let conn = Event::ServerConnected { properties: Value::Null };
    assert!(hb.is_heartbeat() && !hb.is_connected());
    assert!(conn.is_connected() && !conn.is_heartbeat());
    assert!(!Event::Unknown.is_heartbeat() && !Event::Unknown.is_connected());
}

#[test]
fn session_filter_passes_only_events_of_the_session() {
    assert!(event_in_session(&question_asked("r", "sess-1"), "sess-1"));
    assert!(!event_in_session(&question_asked("r", "sess-1"), "sess-2"));
    assert!(!event_in_session(&question_asked("r", "sess-1"), "sess-"));
    assert!(!event_in_session(&Event::ServerHeartbeat { properties: Value::Null }, "sess-1"));
    assert!(!event_in_session(&Event::Unknown, ""));
}

#[test]
fn cloned_session_keeps_its_extra_fields() {
    let mut s = session("s1", "t");
    s.extra = json(r#"{"futureField": "preserved"}"#);
    let c = s.clone();
    assert_eq!(c.extra, s.extra);
    assert_eq!(c.extra["futureField"], "preserved");
}
