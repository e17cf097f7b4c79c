use opencode_rs::http::{
    config_route, diff_since_message_route, encode_path_segment, files_route, session_route,
    ConfigOp, FilesOp, HttpMethod, RequestBody, SessionOp,
};

#[test]
fn plain_ids_are_not_escaped() {
    assert_eq!(encode_path_segment("abc123"), "abc123");
    assert_eq!(encode_path_segment("ses_A-b.c~9"), "ses_A-b.c~9");
    assert_eq!(encode_path_segment(""), "");
}

#[test]
fn reserved_and_non_ascii_bytes_are_escaped() {
    assert_eq!(encode_path_segment("a/b"), "a%2Fb");
    assert_eq!(encode_path_segment("a b?c"), "a%20b%3Fc");
    assert_eq!(encode_path_segment("%"), "%25");
    assert_eq!(encode_path_segment("é"), "%C3%A9");
}

#[test]
fn session_item_routes() {
    let r = session_route(SessionOp::Get, "abc123");
    assert_eq!((r.method, r.path.as_str(), r.body), (HttpMethod::Get, "/session/abc123", RequestBody::Absent));
    assert!(r.query.is_empty());
    let r = session_route(SessionOp::Delete, "del123");
    assert_eq!((r.method, r.path.as_str()), (HttpMethod::Delete, "/session/del123"));
    let r = session_route(SessionOp::Update, "s1");
    assert_eq!((r.method, r.path.as_str(), r.body), (HttpMethod::Patch, "/session/s1", RequestBody::Payload));
}

#[test]
fn session_action_routes() {
    let cases = [
        (SessionOp::Fork, HttpMethod::Post, "/session/s1/fork", RequestBody::EmptyObject),
        (SessionOp::Abort, HttpMethod::Post, "/session/s1/abort", RequestBody::EmptyObject),
        (SessionOp::Children, HttpMethod::Get, "/session/s1/children", RequestBody::Absent),
        (SessionOp::Todo, HttpMethod::Get, "/session/s1/todo", RequestBody::Absent),
        (SessionOp::Init, HttpMethod::Post, "/session/s1/init", RequestBody::Payload),
        (SessionOp::Share, HttpMethod::Post, "/session/s1/share", RequestBody::EmptyObject),
        (SessionOp::Unshare, HttpMethod::Delete, "/session/s1/share", RequestBody::Absent),
        (SessionOp::Diff, HttpMethod::Get, "/session/s1/diff", RequestBody::Absent),
        (SessionOp::Summarize, HttpMethod::Post, "/session/s1/summarize", RequestBody::Payload),
        (SessionOp::Revert, HttpMethod::Post, "/session/s1/revert", RequestBody::Payload),
        (SessionOp::Unrevert, HttpMethod::Post, "/session/s1/unrevert", RequestBody::EmptyObject),
    ];
    for (op, method, path, body) in cases {
        let r = session_route(op, "s1");
        assert_eq!(r.method, method);
        assert_eq!(r.path, path);
        assert_eq!(r.body, body);
        assert!(r.query.is_empty());
    }
}

#[test]
fn session_collection_routes_ignore_the_id() {
    let r = session_route(SessionOp::Create, "ignored");
    assert_eq!((r.method, r.path.as_str(), r.body), (HttpMethod::Post, "/session", RequestBody::Payload));
    let r = session_route(SessionOp::Status, "ignored");
    assert_eq!((r.method, r.path.as_str(), r.body), (HttpMethod::Get, "/session/status", RequestBody::Absent));
}

#[test]
fn session_ids_are_escaped_in_paths() {
    let r = session_route(SessionOp::Fork, "a/b");
    assert_eq!(r.path, "/session/a%2Fb/fork");
}

#[test]
fn diff_since_message_sends_message_id() {
    let r = diff_since_message_route("s1", "msg-1");
    assert_eq!(r.method, HttpMethod::Get);
    assert_eq!(r.path, "/session/s1/diff");
    assert_eq!(r.query, vec![("messageID", "msg-1".to_string())]);
    assert_eq!(r.body, RequestBody::Absent);
}

#[test]
fn config_routes() {
    let r = config_route(ConfigOp::Get);
    assert_eq!((r.method, r.path.as_str(), r.body), (HttpMethod::Get, "/config", RequestBody::Absent));
    let r = config_route(ConfigOp::Update);
    assert_eq!((r.method, r.path.as_str(), r.body), (HttpMethod::Patch, "/config", RequestBody::Payload));
    let r = config_route(ConfigOp::Providers);
    assert_eq!((r.method, r.path.as_str(), r.body), (HttpMethod::Get, "/config/providers", RequestBody::Absent));
}

#[test]
fn file_routes() {
    let r = files_route(FilesOp::List, "src");
    assert_eq!((r.method, r.path.as_str()), (HttpMethod::Get, "/file"));
    assert_eq!(r.query, vec![("path", "src".to_string())]);
    let r = files_route(FilesOp::Read, "main.rs");
    assert_eq!(r.path, "/file/content");
    assert_eq!(r.query, vec![("path", "main.rs".to_string())]);
    let r = files_route(FilesOp::Status, "ignored");
    assert_eq!(r.path, "/file/status");
    assert!(r.query.is_empty());
}
