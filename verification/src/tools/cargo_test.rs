//! `cargo test`, for Cargo projects.

use vstd::prelude::*;
use super::{invokes, skips, Program, ToolCommand, ToolResult, ToolStep};
use crate::project::ProjectInfo;

verus! {

/// Skips without `Cargo.toml`; otherwise runs `cargo test --no-fail-fast`.
pub fn run(info: &ProjectInfo) -> (step: ToolStep)
    ensures
        !info.has_cargo_toml ==> skips(step, "test"),
        info.has_cargo_toml ==> invokes(step, "test", Program::Cargo, seq!["test", "--no-fail-fast"], None),
{
    if !info.has_cargo_toml {
        return ToolStep::Skip(ToolResult::skipped("test"));
    }
    let args = vec!["test", "--no-fail-fast"];
    ToolStep::Invoke(ToolCommand {
        name: "test",
        program: Program::Cargo,
        args,
        requires_installed: None,
    })
}

} // verus!
