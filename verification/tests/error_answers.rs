use opencode_rs::http::{
    error_name, parsed_answer_name, status_is_not_found, status_is_server_error,
    status_is_validation_error,
};

#[test]
fn status_classes() {
    assert!(status_is_not_found(404));
    assert!(!status_is_not_found(400));
    assert!(status_is_validation_error(400));
    assert!(!status_is_validation_error(422));
    assert!(status_is_server_error(500));
    assert!(status_is_server_error(599));
    assert!(!status_is_server_error(499));
    assert!(!status_is_server_error(600));
}

#[test]
fn error_name_of_json_answer() {
    assert_eq!(
        error_name(r#"{"name":"NotFoundError","data":{"message":"gone"}}"#).as_deref(),
        Some("NotFoundError")
    );
}

#[test]
fn error_name_needs_json_with_a_string_name() {
    assert_eq!(error_name("Internal Server Error"), None);
    assert_eq!(error_name(r#"{"name":5}"#), None);
    assert_eq!(error_name(r#"{"message":"x"}"#), None);
    assert_eq!(error_name(r#"["name"]"#), None);
}

#[test]
fn name_of_a_parsed_answer() {
    let v: serde_json::Value = serde_json::from_str(r#"{"name":"ValidationError"}"#).unwrap();
    assert_eq!(parsed_answer_name(&Some(v)).as_deref(), Some("ValidationError"));
    assert_eq!(parsed_answer_name(&None), None);
}
