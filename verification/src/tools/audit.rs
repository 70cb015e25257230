//! cargo-audit, which checks Cargo dependencies against the advisory database.

use vstd::prelude::*;
use super::{invokes, skips, Program, ToolCommand, ToolResult, ToolStep};
use crate::project::ProjectInfo;

verus! {

/// Skips without `Cargo.toml`; otherwise runs `cargo audit` once
/// `cargo-audit` is found installed (see `ToolCommand::after_install_check`).
pub fn run(info: &ProjectInfo) -> (step: ToolStep)
    ensures
        !info.has_cargo_toml ==> skips(step, "audit"),
        info.has_cargo_toml ==> invokes(step, "audit", Program::Cargo, seq!["audit"], Some("cargo-audit")),
{
    if !info.has_cargo_toml {
        return ToolStep::Skip(ToolResult::skipped("audit"));
    }
    let args = vec!["audit"];
    assert(args@ =~= seq!["audit"]);
    ToolStep::Invoke(ToolCommand {
        name: "audit",
        program: Program::Cargo,
        args,
        requires_installed: Some("cargo-audit"),
    })
}

} // verus!
