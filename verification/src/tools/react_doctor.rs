//! react-doctor, for projects that depend on React.

use vstd::prelude::*;
use super::{invokes, skips, Program, ToolCommand, ToolResult, ToolStep};
use crate::project::ProjectInfo;

verus! {

/// Skips unless the project declares React; otherwise runs
/// `react-doctor . --verbose`.
pub fn run(info: &ProjectInfo) -> (step: ToolStep)
    ensures
        !info.has_react ==> skips(step, "react-doctor"),
        info.has_react ==> invokes(step, "react-doctor", Program::NodeBin("react-doctor"), seq![".", "--verbose"], None),
{
    if !info.has_react {
        return ToolStep::Skip(ToolResult::skipped("react-doctor"));
    }
    ToolStep::Invoke(ToolCommand {
        name: "react-doctor",
        program: Program::NodeBin("react-doctor"),
        args: vec![".", "--verbose"],
        requires_installed: None,
    })
}

} // verus!
