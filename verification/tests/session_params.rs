use opencode_rs::http::{list_sessions_route, HttpMethod, RequestBody};
use opencode_rs::types::session::{SessionListParams, SessionListScope};

#[test]
fn test_session_list_params_project_helper() {
    assert_eq!(
        SessionListParams::project(),
        SessionListParams {
            scope: Some(SessionListScope::Project),
            ..SessionListParams::default()
        }
    );
}

#[test]
fn test_session_list_params_to_query_pairs() {
    let params = SessionListParams {
        scope: Some(SessionListScope::Project),
        path: Some("src/lib.rs".to_string()),
        roots: Some(true),
        start: Some(1_234_567_890),
        search: Some("hello".to_string()),
        limit: Some(25),
    };

    assert_eq!(
        params.to_query_pairs(),
        vec![
            ("scope", "project".to_string()),
            ("path", "src/lib.rs".to_string()),
            ("roots", "true".to_string()),
            ("start", "1234567890".to_string()),
            ("search", "hello".to_string()),
            ("limit", "25".to_string()),
        ]
    );
}

#[test]
fn default_params_encode_to_no_query() {
    assert!(SessionListParams::default().to_query_pairs().is_empty());
    let route = list_sessions_route(&SessionListParams::default());
    assert_eq!(route.method, HttpMethod::Get);
    assert_eq!(route.path, "/session");
    assert!(route.query.is_empty());
    assert_eq!(route.body, RequestBody::Absent);
}

#[test]
fn query_pairs_skip_unset_fields_and_keep_order() {
    let params = SessionListParams {
        scope: None,
        path: None,
        roots: Some(false),
        start: None,
        search: Some("x y".to_string()),
        limit: Some(0),
    };
    assert_eq!(
        params.to_query_pairs(),
        vec![
            ("roots", "false".to_string()),
            ("search", "x y".to_string()),
            ("limit", "0".to_string()),
        ]
    );
}

#[test]
fn query_pairs_render_negative_and_extreme_numbers() {
    let params = SessionListParams {
        start: Some(i64::MIN),
        limit: Some(u64::MAX),
        ..SessionListParams::default()
    };
    assert_eq!(
        params.to_query_pairs(),
        vec![
            ("start", i64::MIN.to_string()),
            ("limit", u64::MAX.to_string()),
        ]
    );
    let params = SessionListParams { start: Some(-7), ..SessionListParams::default() };
    assert_eq!(params.to_query_pairs(), vec![("start", "-7".to_string())]);
}

#[test]
fn list_route_carries_the_filter() {
    let route = list_sessions_route(&SessionListParams::project());
    assert_eq!(route.query, vec![("scope", "project".to_string())]);
}

#[test]
fn query_values_read_back_as_the_fields() {
    let params = SessionListParams {
        scope: Some(SessionListScope::Project),
        path: Some("a b/c".to_string()),
        roots: Some(false),
        start: Some(-42),
        search: Some("héllo".to_string()),
        limit: Some(7),
    };
    for (k, v) in params.to_query_pairs() {
        match k {
            "scope" => assert_eq!(v, "project"),
            "path" => assert_eq!(Some(v), params.path.clone()),
            "roots" => assert_eq!(v.parse::<bool>().ok(), params.roots),
            "start" => assert_eq!(v.parse::<i64>().ok(), params.start),
            "search" => assert_eq!(Some(v), params.search.clone()),
            "limit" => assert_eq!(v.parse::<u64>().ok(), params.limit),
            other => panic!("unexpected key {other}"),
        }
    }
}
