//! Knip, which finds unused files and dependencies in JavaScript projects.

use vstd::prelude::*;
use super::{invokes, skips, Program, ToolCommand, ToolResult, ToolStep};
use crate::project::ProjectInfo;

verus! {

/// Skips without `package.json`; otherwise runs the project's (or the
/// search path's) `knip --reporter json --no-exit-code`.
pub fn run(info: &ProjectInfo) -> (step: ToolStep)
    ensures
        !info.has_package_json ==> skips(step, "knip"),
        info.has_package_json ==> invokes(step, "knip", Program::NodeBin("knip"), seq!["--reporter", "json", "--no-exit-code"], None),
{
    if !info.has_package_json {
        return ToolStep::Skip(ToolResult::skipped("knip"));
    }
    ToolStep::Invoke(ToolCommand {
        name: "knip",
        program: Program::NodeBin("knip"),
        args: vec!["--reporter", "json", "--no-exit-code"],
        requires_installed: None,
    })
}

} // verus!
