//! oxlint, the JavaScript linter, for projects with `package.json`.

use vstd::prelude::*;
use super::{invokes, skips, Program, ToolCommand, ToolResult, ToolStep};
use crate::project::ProjectInfo;

verus! {

/// Skips without `package.json`; otherwise runs `oxlint --format json .` from
/// the project's `node_modules/.bin` or the search path.
pub fn run(info: &ProjectInfo) -> (step: ToolStep)
    ensures
        !info.has_package_json ==> skips(step, "oxlint"),
        info.has_package_json ==> invokes(
            step,
            "oxlint",
            Program::NodeBin("oxlint"),
            seq!["--format", "json", "."],
            None,
        ),
{
    if !info.has_package_json {
        return ToolStep::Skip(ToolResult::skipped("oxlint"));
    }
    ToolStep::Invoke(ToolCommand {
        name: "oxlint",
        program: Program::NodeBin("oxlint"),
        args: vec!["--format", "json", "."],
        requires_installed: None,
    })
}

} // verus!
