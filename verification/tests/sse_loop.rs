use opencode_rs::sse::{
    connect_plan, event_url, global_event_url, SseAction, SseInput, SseLoop, SseOptions,
};
use std::time::Duration;

fn quick() -> SseOptions {
    SseOptions { capacity: 1, initial_interval: Duration::from_millis(10), max_interval: Duration::from_millis(50) }
}

#[test]
fn stream_urls() {
    assert_eq!(event_url("http://localhost:4096"), "http://localhost:4096/event");
    assert_eq!(global_event_url("http://localhost:4096"), "http://localhost:4096/global/event");
}

#[test]
fn directory_stream_is_scoped() {
    let plan = connect_plan(
        false,
        &Some("/work/project".to_string()),
        &Some("ws-1".to_string()),
        Some("42".to_string()),
    );
    assert_eq!(
        plan.query,
        vec![("directory", "/work/project".to_string()), ("workspace", "ws-1".to_string())]
    );
    assert_eq!(plan.last_event_id.as_deref(), Some("42"));
}

#[test]
fn global_stream_is_not_scoped() {
    let plan = connect_plan(true, &Some("/work".to_string()), &Some("ws".to_string()), None);
    assert!(plan.query.is_empty());
    assert_eq!(plan.last_event_id, None);
}

#[test]
fn base_ending_in_global_keeps_the_scope() {
    let url = event_url("http://h/global");
    assert_eq!(url, "http://h/global/event");
    let plan = connect_plan(false, &Some("/work".to_string()), &None, None);
    assert_eq!(plan.query, vec![("directory", "/work".to_string())]);
}

#[test]
fn workspace_alone_is_sent() {
    let plan = connect_plan(false, &None, &Some("ws".to_string()), Some("9".to_string()));
    assert_eq!(plan.query, vec![("workspace", "ws".to_string())]);
    assert_eq!(plan.last_event_id.as_deref(), Some("9"));
}

#[test]
fn cancellation_stops_the_loop() {
    let mut lp = SseLoop::new(&quick());
    assert!(!lp.stopped());
    assert!(matches!(lp.step(SseInput::Cancelled), SseAction::Stop));
    assert!(lp.stopped());
    assert!(matches!(lp.step(SseInput::Opened), SseAction::Stop));
    assert!(matches!(lp.step(SseInput::Message { id: "1".to_string(), wanted: true }), SseAction::Stop));
}

#[test]
fn messages_record_nonempty_ids_and_follow_the_filter() {
    let mut lp = SseLoop::new(&quick());
    match lp.step(SseInput::Message { id: "7".to_string(), wanted: true }) {
        SseAction::Accept { record_id, send } => {
            assert_eq!(record_id.as_deref(), Some("7"));
            assert!(send);
        }
        _ => panic!("expected accept"),
    }
    match lp.step(SseInput::Message { id: String::new(), wanted: false }) {
        SseAction::Accept { record_id, send } => {
            assert_eq!(record_id, None);
            assert!(!send);
        }
        _ => panic!("expected accept"),
    }
}

#[test]
fn failures_reconnect_with_backoff() {
    let mut lp = SseLoop::new(&quick());
    assert!(matches!(lp.step(SseInput::Connected), SseAction::Listen));
    assert!(matches!(lp.step(SseInput::Opened), SseAction::Listen));
    match lp.step(SseInput::StreamError) {
        SseAction::Reconnect { close, delay } => {
            assert!(close);
            let d = delay.expect("first delay");
            assert!(d >= Duration::from_millis(10) && d < Duration::from_millis(20));
        }
        _ => panic!("expected reconnect"),
    }
    match lp.step(SseInput::ConnectFailed) {
        SseAction::Reconnect { close, delay } => {
            assert!(!close);
            let d = delay.expect("second delay");
            assert!(d >= Duration::from_millis(20) && d < Duration::from_millis(40));
        }
        _ => panic!("expected reconnect"),
    }
    match lp.step(SseInput::StreamEnded) {
        SseAction::Reconnect { close, delay } => {
            assert!(!close);
            let d = delay.expect("third delay");
            assert!(d >= Duration::from_millis(40) && d < Duration::from_millis(80));
        }
        _ => panic!("expected reconnect"),
    }
    // Growth stops at the maximum interval, and retries go on with a delay.
    match lp.step(SseInput::StreamEnded) {
        SseAction::Reconnect { delay: Some(d), .. } => {
            assert!(d >= Duration::from_millis(50) && d < Duration::from_millis(100));
        }
        _ => panic!("expected a fourth delay"),
    }
    // A successful open restarts the delay sequence.
    assert!(matches!(lp.step(SseInput::Opened), SseAction::Listen));
    match lp.step(SseInput::StreamEnded) {
        SseAction::Reconnect { delay: Some(d), .. } => assert!(d < Duration::from_millis(20)),
        _ => panic!("expected a fresh delay"),
    }
}

#[test]
fn send_failure_stops() {
    let mut lp = SseLoop::new(&quick());
    assert!(matches!(lp.step(SseInput::SendFailed), SseAction::Stop));
    assert!(lp.stopped());
}

#[test]
fn retries_never_run_out_of_delays() {
    let mut lp = SseLoop::new(&quick());
    for _ in 0..20 {
        match lp.step(SseInput::StreamEnded) {
            SseAction::Reconnect { delay: Some(d), close: false } => {
                assert!(d >= Duration::from_millis(10) && d < Duration::from_millis(100));
            }
            _ => panic!("expected a delayed reconnect"),
        }
    }
    assert!(matches!(lp.step(SseInput::Opened), SseAction::Listen));
    match lp.step(SseInput::StreamError) {
        SseAction::Reconnect { delay: Some(d), close: true } => assert!(d < Duration::from_millis(20)),
        _ => panic!("expected a fresh delay"),
    }
}

#[test]
fn delays_never_fall_below_the_smaller_interval() {
    let opts = SseOptions { capacity: 1, initial_interval: Duration::from_millis(50), max_interval: Duration::from_millis(10) };
    let mut lp = SseLoop::new(&opts);
    match lp.step(SseInput::ConnectFailed) {
        SseAction::Reconnect { delay: Some(d), .. } => {
            assert!(d >= Duration::from_millis(50) && d < Duration::from_millis(100));
        }
        _ => panic!("expected a delayed reconnect"),
    }
    for _ in 0..5 {
        match lp.step(SseInput::ConnectFailed) {
            SseAction::Reconnect { delay: Some(d), .. } => {
                assert!(d >= Duration::from_millis(10) && d < Duration::from_millis(20));
            }
            _ => panic!("expected a delayed reconnect"),
        }
    }
}
