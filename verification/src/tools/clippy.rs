//! Clippy, the Rust linter, for Cargo projects.

use vstd::prelude::*;
use super::{invokes, skips, Program, ToolCommand, ToolResult, ToolStep};
use crate::project::ProjectInfo;

verus! {

/// Skips without `Cargo.toml`; otherwise runs
/// `cargo clippy --message-format=short -- -W clippy::all`.
pub fn run(info: &ProjectInfo) -> (step: ToolStep)
    ensures
        !info.has_cargo_toml ==> skips(step, "clippy"),
        info.has_cargo_toml ==> invokes(
            step,
            "clippy",
            Program::Cargo,
            seq!["clippy", "--message-format=short", "--", "-W", "clippy::all"],
            None,
        ),
{
    if !info.has_cargo_toml {
        return ToolStep::Skip(ToolResult::skipped("clippy"));
    }
    ToolStep::Invoke(ToolCommand {
        name: "clippy",
        program: Program::Cargo,
        args: vec!["clippy", "--message-format=short", "--", "-W", "clippy::all"],
        requires_installed: None,
    })
}

} // verus!
