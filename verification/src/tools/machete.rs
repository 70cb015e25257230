//! cargo-machete, which finds unused Cargo dependencies.

use vstd::prelude::*;
use super::{invokes, skips, Program, ToolCommand, ToolResult, ToolStep};
use crate::project::ProjectInfo;

verus! {

/// Skips without `Cargo.toml`; otherwise runs `cargo machete` once
/// `cargo-machete` is found installed (see `ToolCommand::after_install_check`).
pub fn run(info: &ProjectInfo) -> (step: ToolStep)
    ensures
        !info.has_cargo_toml ==> skips(step, "machete"),
        info.has_cargo_toml ==> invokes(step, "machete", Program::Cargo, seq!["machete"], Some("cargo-machete")),
{
    if !info.has_cargo_toml {
        return ToolStep::Skip(ToolResult::skipped("machete"));
    }
    let args = vec!["machete"];
    assert(args@ =~= seq!["machete"]);
    ToolStep::Invoke(ToolCommand {
        name: "machete",
        program: Program::Cargo,
        args,
        requires_installed: Some("cargo-machete"),
    })
}

} // verus!
