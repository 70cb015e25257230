use reviews::sanitize::{sanitize, trim_end_of, trim_line_ends};

#[test]
fn removes_ansi_escape_codes() {
    let input = "\x1b[31mError:\x1b[0m something failed";
    let result = sanitize(input);
    assert_eq!(result, "Error: something failed");
}

#[test]
fn removes_complex_ansi_codes() {
    let input = "\x1b[1;32m✓\x1b[0m test passed \x1b[38;5;240m(0.5s)\x1b[0m";
    let result = sanitize(input);
    assert_eq!(result, "✓ test passed (0.5s)");
}

#[test]
fn compresses_consecutive_blank_lines() {
    let input = "line1\n\n\n\nline2";
    let result = sanitize(input);
    assert_eq!(result, "line1\n\nline2");
}

#[test]
fn preserves_single_blank_line() {
    let input = "line1\n\nline2";
    let result = sanitize(input);
    assert_eq!(result, "line1\n\nline2");
}

#[test]
fn removes_trailing_whitespace() {
    let input = "hello   \nworld\t";
    let result = sanitize(input);
    assert_eq!(result, "hello\nworld");
}

#[test]
fn json_passes_through_unchanged() {
    let input = r#"{"files": ["a.ts"], "count": 3}"#;
    let result = sanitize(input);
    assert_eq!(result, input);
}

#[test]
fn empty_input_returns_empty() {
    assert_eq!(sanitize(""), "");
}

#[test]
fn trim_line_ends_drops_final_line_break() {
    assert_eq!(trim_line_ends("a  \r\nb\t\n"), "a\nb");
    assert_eq!(trim_line_ends("\n\n"), "\n");
    assert_eq!(trim_line_ends("x\n   "), "x\n");
}

#[test]
fn trim_line_ends_uses_unicode_white_space() {
    assert_eq!(trim_line_ends("a\u{3000}\u{a0}\nb\u{2009}"), "a\nb");
    assert_eq!(trim_line_ends("keep\u{200b}"), "keep\u{200b}");
}

#[test]
fn trim_line_ends_agrees_with_std() {
    let samples = ["", "a", "a\n", "\n", " \n \n", "a \r\n b \n\n\nc\t", "x\u{85}y\u{85}"];
    for s in samples {
        let expected = s.lines().map(|l| l.trim_end()).collect::<Vec<_>>().join("\n");
        assert_eq!(trim_line_ends(s), expected, "input {:?}", s);
    }
}

#[test]
fn trim_end_of_matches_std() {
    assert_eq!(trim_end_of("ab \n\t "), "ab");
    assert_eq!(trim_end_of("   "), "");
    assert_eq!(trim_end_of(""), "");
}

#[test]
fn sanitize_keeps_non_csi_escape() {
    assert_eq!(sanitize("a\x1b]0;title\x07b"), "a\x1b]0;title\x07b");
}

#[test]
fn sanitize_compresses_blank_run_after_trimming() {
    assert_eq!(sanitize("a\n  \n \n\nb"), "a\n\nb");
}

#[test]
fn sanitize_escape_sequence_edges() {
    assert_eq!(sanitize("\x1b[m|\x1b[12;3H|\x1b[1;2"), "||\x1b[1;2");
    assert_eq!(sanitize("\x1b\x1b[0mX"), "\x1bX");
    assert_eq!(sanitize("\x1b[1\u{e9}"), "\x1b[1\u{e9}");
}

#[test]
fn sanitize_blank_run_edges() {
    assert_eq!(sanitize("a\n\n\n\n\n\nb\n\n\nc"), "a\n\nb\n\nc");
    assert_eq!(sanitize("\n\n\n"), "\n\n");
    assert_eq!(sanitize("a\n\n\n\n"), "a\n\n");
}
