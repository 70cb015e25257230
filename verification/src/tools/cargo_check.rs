//! `cargo check`, for Cargo projects.

use vstd::prelude::*;
use super::{invokes, skips, Program, ToolCommand, ToolResult, ToolStep};
use crate::project::ProjectInfo;

verus! {

/// Skips without `Cargo.toml`; otherwise runs `cargo check --message-format=short`.
pub fn run(info: &ProjectInfo) -> (step: ToolStep)
    ensures
        !info.has_cargo_toml ==> skips(step, "check"),
        info.has_cargo_toml ==> invokes(step, "check", Program::Cargo, seq!["check", "--message-format=short"], None),
{
    if !info.has_cargo_toml {
        return ToolStep::Skip(ToolResult::skipped("check"));
    }
    ToolStep::Invoke(ToolCommand {
        name: "check",
        program: Program::Cargo,
        args: vec!["check", "--message-format=short"],
        requires_installed: None,
    })
}

} // verus!
