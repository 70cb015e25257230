//! tsgo, the native TypeScript compiler, as a type checker.

use vstd::prelude::*;
use super::{invokes, skips, Program, ToolCommand, ToolResult, ToolStep};
use crate::project::ProjectInfo;

verus! {

/// Skips without `tsconfig.json`; otherwise runs `tsgo --noEmit`.
pub fn run(info: &ProjectInfo) -> (step: ToolStep)
    ensures
        !info.has_tsconfig ==> skips(step, "tsgo"),
        info.has_tsconfig ==> invokes(step, "tsgo", Program::NodeBin("tsgo"), seq!["--noEmit"], None),
{
    if !info.has_tsconfig {
        return ToolStep::Skip(ToolResult::skipped("tsgo"));
    }
    let args = vec!["--noEmit"];
    assert(args@ =~= seq!["--noEmit"]);
    ToolStep::Invoke(ToolCommand {
        name: "tsgo",
        program: Program::NodeBin("tsgo"),
        args,
        requires_installed: None,
    })
}

} // verus!
