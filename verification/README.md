# reviews

A pre-flight hook for an AI coding agent: when the agent invokes the `audit`
skill, the hook detects the project type, runs the applicable static-analysis
tools in parallel and answers with an approval that carries their output as
context. It never blocks the skill.

Layout:

- `src/` — the verified library: configuration merging (`config`), the
  directory walk (`traverse`), project detection (`project`), output cleaning
  (`sanitize`), tool selection and command outcomes (`tools`), and the answer
  (`report`).
- `app/main.rs` — the program: reads stdin, probes the file system, spawns the
  tools with a time limit, and prints the library's answer.
- `tests/` — tests of the library.
