use reviews::project::ProjectInfo;
use std::path::PathBuf;
use reviews::tools::{
    self, clippy, machete, oxlint, react_doctor, tsgo, CommandOutcome, Program, Tool, ToolResult,
    ToolStep,
};

fn info(pkg: bool, ts: bool, react: bool, cargo: bool) -> ProjectInfo {
    ProjectInfo {
        root: PathBuf::from("/tmp/nonexistent"),
        has_package_json: pkg,
        has_tsconfig: ts,
        has_react: react,
        has_cargo_toml: cargo,
    }
}

fn skipped_result(step: ToolStep) -> ToolResult {
    match step {
        ToolStep::Skip(r) => r,
        ToolStep::Invoke(c) => panic!("expected a skip, got {:?}", c),
    }
}

#[test]
fn clippy_skips_without_cargo_toml() {
    let result = skipped_result(clippy::run(&info(false, false, false, false)));
    assert!(!result.success);
    assert!(result.output.is_empty());
}

#[test]
fn machete_skips_without_cargo_toml() {
    let result = skipped_result(machete::run(&info(false, false, false, false)));
    assert!(!result.success);
    assert!(result.output.is_empty());
}

#[test]
fn runs_without_package_json() {
    let step = oxlint::run(&info(false, false, false, false));
    assert_eq!(step.name(), "oxlint");
    let result = skipped_result(step);
    assert!(!result.success);
    assert!(result.output.is_empty());
}

#[test]
fn oxlint_command_with_package_json() {
    match oxlint::run(&info(true, false, false, false)) {
        ToolStep::Invoke(c) => {
            assert_eq!(c.name, "oxlint");
            assert_eq!(c.program, Program::NodeBin("oxlint"));
            assert_eq!(c.args, vec!["--format", "json", "."]);
            assert_eq!(c.requires_installed, None);
        }
        ToolStep::Skip(_) => panic!("oxlint must run with package.json"),
    }
}

#[test]
fn skips_without_react() {
    let result = skipped_result(react_doctor::run(&info(true, false, false, false)));
    assert!(!result.success);
    assert!(result.output.is_empty());
}

#[test]
fn skips_without_tsconfig() {
    let result = skipped_result(tsgo::run(&info(true, false, false, false)));
    assert!(!result.success);
    assert!(result.output.is_empty());
}

#[test]
fn clippy_command_for_cargo_project() {
    match clippy::run(&info(false, false, false, true)) {
        ToolStep::Invoke(c) => {
            assert_eq!(c.name, "clippy");
            assert_eq!(c.program, Program::Cargo);
            assert_eq!(c.args, vec!["clippy", "--message-format=short", "--", "-W", "clippy::all"]);
            assert_eq!(c.requires_installed, None);
        }
        ToolStep::Skip(_) => panic!("clippy must run"),
    }
}

#[test]
fn machete_needs_cargo_machete_installed() {
    let cmd = match machete::run(&info(false, false, false, true)) {
        ToolStep::Invoke(c) => c,
        ToolStep::Skip(_) => panic!("machete must ask for an install check"),
    };
    assert_eq!(cmd.requires_installed, Some("cargo-machete"));
    let missing = skipped_result(cmd.after_install_check(false));
    assert_eq!(missing.name, "machete");
    assert!(!missing.success);
    let cmd = match machete::run(&info(false, false, false, true)) {
        ToolStep::Invoke(c) => c,
        ToolStep::Skip(_) => panic!("machete must ask for an install check"),
    };
    match cmd.after_install_check(true) {
        ToolStep::Invoke(c) => {
            assert_eq!(c.args, vec!["machete"]);
            assert_eq!(c.requires_installed, None);
        }
        ToolStep::Skip(_) => panic!("installed machete must run"),
    }
}

#[test]
fn knip_and_react_doctor_commands() {
    match tools::knip::run(&info(true, false, false, false)) {
        ToolStep::Invoke(c) => {
            assert_eq!(c.program, Program::NodeBin("knip"));
            assert_eq!(c.args, vec!["--reporter", "json", "--no-exit-code"]);
        }
        ToolStep::Skip(_) => panic!("knip must run"),
    }
    assert_eq!(skipped_result(tools::knip::run(&info(false, true, false, false))).name, "knip");
    match react_doctor::run(&info(true, false, true, false)) {
        ToolStep::Invoke(c) => assert_eq!(c.args, vec![".", "--verbose"]),
        ToolStep::Skip(_) => panic!("react-doctor must run"),
    }
}

#[test]
fn skipped_result_is_empty_and_failed() {
    let r = ToolResult::skipped("tsgo");
    assert_eq!(r.name, "tsgo");
    assert!(r.output.is_empty());
    assert!(!r.success);
}

#[test]
fn truncate_output_keeps_short_text() {
    assert_eq!(tools::truncate_output("abc"), "abc");
    let exact = "x".repeat(tools::MAX_OUTPUT_SIZE);
    assert_eq!(tools::truncate_output(&exact), exact);
}

#[test]
fn truncate_output_cuts_long_text() {
    let long = "y".repeat(tools::MAX_OUTPUT_SIZE + 5);
    let cut = tools::truncate_output(&long);
    assert_eq!(cut.len(), tools::MAX_OUTPUT_SIZE + "\n[output truncated]".len());
    assert!(cut.ends_with("\n[output truncated]"));
    assert!(cut.starts_with(&"y".repeat(tools::MAX_OUTPUT_SIZE)));
}

#[test]
fn combine_output_joins_streams() {
    assert_eq!(tools::combine_output(b"out  ", b"").as_deref(), Some("out"));
    assert_eq!(tools::combine_output(b"", b"err\n").as_deref(), Some("err"));
    assert_eq!(tools::combine_output(b"out", b"err").as_deref(), Some("out\nerr"));
    assert_eq!(tools::combine_output(b"", b"").as_deref(), Some(""));
}

#[test]
fn combine_output_reads_invalid_utf8_lossily() {
    assert_eq!(tools::combine_output(b"a\xffb", b"").as_deref(), Some("a\u{fffd}b"));
}

#[test]
fn combine_output_refuses_cut_inside_character() {
    let mut bytes = "a".repeat(tools::MAX_OUTPUT_SIZE - 1).into_bytes();
    bytes.extend_from_slice("é".as_bytes());
    assert_eq!(tools::combine_output(&bytes, b""), None);
    let mut ok = "a".repeat(tools::MAX_OUTPUT_SIZE).into_bytes();
    ok.extend_from_slice("é".as_bytes());
    let text = tools::combine_output(&ok, b"").unwrap();
    assert!(text.ends_with("a\n[output truncated]"));
}

#[test]
fn from_outcome_finished_and_failures() {
    let done = ToolResult::from_outcome(
        "knip",
        CommandOutcome::Finished { success: true, stdout: b"\x1b[1mfound\x1b[0m".to_vec(), stderr: vec![] },
    );
    assert_eq!(done.name, "knip");
    assert!(done.success);
    assert_eq!(done.output, "found");
    let failed = ToolResult::from_outcome(
        "tsgo",
        CommandOutcome::Finished { success: false, stdout: vec![], stderr: b"boom".to_vec() },
    );
    assert!(!failed.success);
    assert_eq!(failed.output, "boom");
    for outcome in [CommandOutcome::Failed, CommandOutcome::TimedOut, CommandOutcome::Lost] {
        let r = ToolResult::from_outcome("oxlint", outcome);
        assert_eq!(r.name, "oxlint");
        assert!(!r.success);
        assert!(r.output.is_empty());
    }
}

#[test]
fn tool_labels_match_results() {
    let p = info(false, false, false, false);
    for t in [Tool::Knip, Tool::Oxlint, Tool::Tsgo, Tool::ReactDoctor, Tool::Clippy, Tool::CargoCheck, Tool::CargoTest, Tool::Audit, Tool::Machete] {
        assert_eq!(t.run(&p).name(), t.label());
    }
    assert_eq!(Tool::ReactDoctor.label(), "react-doctor");
    assert_eq!(Tool::CargoCheck.label(), "check");
}
