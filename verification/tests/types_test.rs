use obsidian_mcp::types::{Operation, PatchParams, TargetType};

#[test]
fn operation_display() {
    assert_eq!(Operation::Append.to_string(), "append");
    assert_eq!(Operation::Prepend.to_string(), "prepend");
    assert_eq!(Operation::Replace.to_string(), "replace");
}

#[test]
fn target_type_display() {
    assert_eq!(TargetType::Heading.to_string(), "heading");
    assert_eq!(TargetType::Block.to_string(), "block");
    assert_eq!(TargetType::Frontmatter.to_string(), "frontmatter");
}

fn operation_from_json(text: &str) -> Option<Operation> {
    let name: String = serde_json::from_str(text).ok()?;
    Operation::from_name(&name)
}

fn target_type_from_json(text: &str) -> Option<TargetType> {
    let name: String = serde_json::from_str(text).ok()?;
    TargetType::from_name(&name)
}

#[test]
fn operation_deserializes_from_lowercase() {
    let op = operation_from_json("\"append\"").unwrap();
    assert!(matches!(op, Operation::Append));

    let op = operation_from_json("\"prepend\"").unwrap();
    assert!(matches!(op, Operation::Prepend));

    let op = operation_from_json("\"replace\"").unwrap();
    assert!(matches!(op, Operation::Replace));
}

#[test]
fn target_type_deserializes_from_lowercase() {
    let tt = target_type_from_json("\"heading\"").unwrap();
    assert!(matches!(tt, TargetType::Heading));

    let tt = target_type_from_json("\"block\"").unwrap();
    assert!(matches!(tt, TargetType::Block));

    let tt = target_type_from_json("\"frontmatter\"").unwrap();
    assert!(matches!(tt, TargetType::Frontmatter));
}

#[test]
fn invalid_operation_fails_deserialization() {
    let result = operation_from_json("\"invalid\"");
    assert!(result.is_none());
}

#[test]
fn invalid_target_type_fails_deserialization() {
    let result = target_type_from_json("\"invalid\"");
    assert!(result.is_none());
}

#[test]
fn names_round_trip_through_parsing() {
    for op in [Operation::Append, Operation::Prepend, Operation::Replace] {
        assert_eq!(Operation::from_name(&op.to_string()), Some(op));
        assert_eq!(Operation::from_name(op.as_str()), Some(op));
    }
    for tt in [TargetType::Heading, TargetType::Block, TargetType::Frontmatter] {
        assert_eq!(TargetType::from_name(&tt.to_string()), Some(tt));
        assert_eq!(TargetType::from_name(tt.as_str()), Some(tt));
    }
}

#[test]
fn parsing_is_case_sensitive_and_exact() {
    assert_eq!(Operation::from_name("Append"), None);
    assert_eq!(Operation::from_name("APPEND"), None);
    assert_eq!(Operation::from_name("append "), None);
    assert_eq!(Operation::from_name(""), None);
    assert_eq!(TargetType::from_name("Heading"), None);
    assert_eq!(TargetType::from_name("front matter"), None);
    assert_eq!(TargetType::from_name("blocks"), None);
}

#[test]
fn patch_params_hold_their_fields() {
    let p = PatchParams {
        operation: Operation::Replace,
        target_type: TargetType::Frontmatter,
        target: "tags".to_string(),
        target_delimiter: Some("/".to_string()),
        trim_target_whitespace: Some(true),
        create_target_if_missing: None,
        content_type: Some("application/json".to_string()),
    };
    let q = p.clone();
    assert_eq!(q.operation, Operation::Replace);
    assert_eq!(q.target, "tags");
    assert_eq!(q.target_delimiter.as_deref(), Some("/"));
    assert_eq!(q.content_type.as_deref(), Some("application/json"));
}
