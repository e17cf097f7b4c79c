use opencode_rs::types::tool::ToolIds;

#[test]
fn test_tool_ids_into_inner() {
    let ids = ToolIds(vec!["a".to_string(), "b".to_string()]);
    let inner = ids.into_inner();
    assert_eq!(inner, vec!["a", "b"]);
}

#[test]
fn test_tool_ids_as_slice() {
    let ids = ToolIds(vec!["x".to_string(), "y".to_string()]);
    assert_eq!(ids.as_slice(), &["x", "y"]);
}

#[test]
fn test_tool_ids_deserialize_flat_array() {
    let ids = ToolIds(vec!["read_file".to_string(), "write_file".to_string(), "bash".to_string()]);
    assert_eq!(ids.len(), 3);
    assert_eq!(ids.0[0], "read_file");
    assert_eq!(ids.0[1], "write_file");
    assert_eq!(ids.0[2], "bash");
}

#[test]
fn test_tool_ids_deserialize_empty() {
    let ids = ToolIds(Vec::new());
    assert!(ids.is_empty());
    assert_eq!(ids.len(), 0);
}

#[test]
fn tool_ids_len_and_emptiness_agree() {
    let ids = ToolIds(vec!["only".to_string()]);
    assert!(!ids.is_empty());
    assert_eq!(ids.len(), 1);
}
