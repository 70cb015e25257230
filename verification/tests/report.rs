use reviews::report::build_output;
use reviews::tools::ToolResult;

#[test]
fn build_output_partial_success() {
    let results = vec![
        ToolResult { name: "knip", output: "result1".into(), success: true },
        ToolResult { name: "oxlint", output: "result2".into(), success: true },
        ToolResult { name: "tsgo", output: "result3".into(), success: true },
        ToolResult { name: "react-doctor", output: String::new(), success: false },
    ];
    let json = build_output(&results).unwrap();
    let parsed: serde_json::Value = serde_json::from_str(&json).unwrap();
    assert_eq!(parsed["decision"], "approve");
    assert!(parsed["reason"].as_str().unwrap().contains("3/4"));
    let ctx = parsed["additionalContext"].as_str().unwrap();
    assert!(ctx.contains("knip"));
    assert!(ctx.contains("oxlint"));
    assert!(ctx.contains("tsgo"));
}

#[test]
fn build_output_all_failed() {
    let results = vec![
        ToolResult { name: "knip", output: String::new(), success: false },
        ToolResult { name: "oxlint", output: String::new(), success: false },
    ];
    let json = build_output(&results).unwrap();
    let parsed: serde_json::Value = serde_json::from_str(&json).unwrap();
    assert_eq!(parsed["decision"], "approve");
    assert!(parsed["reason"].as_str().unwrap().contains("0/2"));
}

#[test]
fn build_output_empty_slice() {
    assert!(build_output(&[]).is_none());
}

#[test]
fn build_output_excludes_successful_but_empty() {
    let results = vec![
        ToolResult { name: "knip", output: String::new(), success: true },
        ToolResult { name: "oxlint", output: "issues".into(), success: true },
    ];
    let json = build_output(&results).unwrap();
    let parsed: serde_json::Value = serde_json::from_str(&json).unwrap();
    assert!(parsed["reason"].as_str().unwrap().contains("1/2"));
    let ctx = parsed["additionalContext"].as_str().unwrap();
    assert!(!ctx.contains("knip"));
}

#[test]
fn build_output_exact_text() {
    let results = vec![ToolResult { name: "oxlint", output: "a \"q\"\nb".into(), success: true }];
    let json = build_output(&results).unwrap();
    assert_eq!(
        json,
        "{\"additionalContext\":\"# Pre-flight Analysis Results\\n\\n## oxlint\\n\\n```\\na \\\"q\\\"\\nb\\n```\",\"decision\":\"approve\",\"reason\":\"Pre-flight: 1/1 tools reported\"}"
    );
}

#[test]
fn build_output_counts_past_ten() {
    let results: Vec<ToolResult> = (0..12)
        .map(|i| ToolResult { name: "knip", output: if i < 11 { "x".into() } else { String::new() }, success: true })
        .collect();
    let json = build_output(&results).unwrap();
    let parsed: serde_json::Value = serde_json::from_str(&json).unwrap();
    assert_eq!(parsed["reason"], "Pre-flight: 11/12 tools reported");
}

#[test]
fn build_output_context_heading_only_when_nothing_reported() {
    let results = vec![ToolResult { name: "knip", output: String::new(), success: false }];
    let parsed: serde_json::Value = serde_json::from_str(&build_output(&results).unwrap()).unwrap();
    assert_eq!(parsed["additionalContext"], "# Pre-flight Analysis Results");
}

#[test]
fn build_output_escapes_controls_like_serde_json() {
    let results = vec![ToolResult { name: "knip", output: "\u{1}\u{8}\t\r\u{c}\\/\u{7f}é\u{1f}".into(), success: true }];
    let json = build_output(&results).unwrap();
    assert!(json.contains("\\u0001\\b\\t\\r\\f\\\\/\u{7f}é\\u001f"));
    let parsed: serde_json::Value = serde_json::from_str(&json).unwrap();
    assert!(parsed["additionalContext"].as_str().unwrap().contains("\u{1}\u{8}\t\r\u{c}\\/\u{7f}é\u{1f}"));
}
