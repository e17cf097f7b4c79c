use opencode_rs::types::session::{status_for_session, summarize_status, SessionStatusInfo};

fn retry(attempt: u64) -> SessionStatusInfo {
    SessionStatusInfo::Retry { attempt, message: "rate limited".to_string(), next: 12345 }
}

#[test]
fn status_from_modern_table() {
    let table = vec![("s1".to_string(), SessionStatusInfo::Busy), ("s2".to_string(), retry(2))];
    let status = summarize_status(&table);
    assert!(status.busy);
    assert_eq!(status.active_session_id, None);
}

#[test]
fn status_names_the_single_active_session() {
    let table = vec![
        ("idle-a".to_string(), SessionStatusInfo::Idle),
        ("s1".to_string(), retry(1)),
        ("idle-b".to_string(), SessionStatusInfo::Idle),
    ];
    let status = summarize_status(&table);
    assert!(status.busy);
    assert_eq!(status.active_session_id.as_deref(), Some("s1"));
}

#[test]
fn status_of_idle_or_empty_table_is_not_busy() {
    let empty: Vec<(String, SessionStatusInfo)> = Vec::new();
    let status = summarize_status(&empty);
    assert!(!status.busy);
    assert_eq!(status.active_session_id, None);
    let idle = vec![("a".to_string(), SessionStatusInfo::Idle)];
    let status = summarize_status(&idle);
    assert!(!status.busy);
    assert_eq!(status.active_session_id, None);
}

#[test]
fn status_summary_ignores_table_order() {
    let a = vec![("x".to_string(), SessionStatusInfo::Idle), ("y".to_string(), SessionStatusInfo::Busy)];
    let b = vec![("y".to_string(), SessionStatusInfo::Busy), ("x".to_string(), SessionStatusInfo::Idle)];
    assert_eq!(summarize_status(&a).active_session_id, summarize_status(&b).active_session_id);
    assert_eq!(summarize_status(&a).busy, summarize_status(&b).busy);
}

#[test]
fn status_for_reads_the_table_and_defaults_to_idle() {
    let table = vec![("s1".to_string(), SessionStatusInfo::Busy), ("s2".to_string(), retry(2))];
    assert_eq!(status_for_session(&table, "s1"), SessionStatusInfo::Busy);
    assert_eq!(status_for_session(&table, "s2"), retry(2));
    assert_eq!(status_for_session(&table, "s3"), SessionStatusInfo::Idle);
    assert_eq!(status_for_session(&[], "s1"), SessionStatusInfo::Idle);
}

#[test]
fn named_active_session_looks_up_active() {
    let table = vec![("a".to_string(), SessionStatusInfo::Idle), ("b".to_string(), retry(3))];
    let summary = summarize_status(&table);
    let id = summary.active_session_id.unwrap();
    assert!(matches!(status_for_session(&table, &id), SessionStatusInfo::Retry { attempt: 3, .. }));
}
