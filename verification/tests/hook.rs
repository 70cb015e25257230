use reviews::hook::is_audit_skill;

/// The skill the hook input names: `tool_input.skill` when it is a string.
fn skill_of(input: &str) -> Option<String> {
    let value: serde_json::Value = serde_json::from_str(input).ok()?;
    value.get("tool_input")?.get("skill")?.as_str().map(String::from)
}

#[test]
fn is_audit_skill_valid() {
    let input = r#"{"tool_name": "Skill", "tool_input": {"skill": "audit"}}"#;
    assert!(is_audit_skill(&skill_of(input)));
}

#[test]
fn is_audit_skill_invalid_json() {
    assert!(!is_audit_skill(&skill_of("not json{{{")));
}

#[test]
fn is_audit_skill_non_audit() {
    let input = r#"{"tool_name": "Skill", "tool_input": {"skill": "commit"}}"#;
    assert!(!is_audit_skill(&skill_of(input)));
}

#[test]
fn is_audit_skill_null() {
    let input = r#"{"tool_name": "Skill", "tool_input": {}}"#;
    assert!(!is_audit_skill(&skill_of(input)));
}

#[test]
fn is_audit_skill_with_args() {
    let input = r#"{"tool_name": "Skill", "tool_input": {"skill": "audit", "args": "--verbose"}}"#;
    assert!(is_audit_skill(&skill_of(input)));
}

#[test]
fn is_audit_skill_exact_name_only() {
    assert!(!is_audit_skill(&Some(String::from("Audit"))));
    assert!(!is_audit_skill(&Some(String::from("audit "))));
    assert!(!is_audit_skill(&Some(String::from("review"))));
    assert!(!is_audit_skill(&None));
}
