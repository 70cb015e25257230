//! The tools the hook runs: what each one runs, when it is skipped, and how
//! a finished run becomes a result.

pub mod audit;
pub mod cargo_check;
pub mod cargo_test;
pub mod clippy;
pub mod knip;
pub mod machete;
pub mod oxlint;
pub mod react_doctor;
pub mod tsgo;

use vstd::prelude::*;
use vstd::utf8::{
    decode_utf8, decode_utf8_encode_utf8, decode_utf8_split, encode_utf8, encode_utf8_decode_utf8,
    encode_utf8_valid_utf8, is_char_boundary, valid_utf8, valid_utf8_split,
};
use crate::sanitize::{sanitize, sanitized};
use crate::config::ToolsConfig;
use crate::project::ProjectInfo;

verus! {

/// The most output, in bytes, that a tool contributes.
pub const MAX_OUTPUT_SIZE: usize = 102_400;

/// Appended to output that was cut at `MAX_OUTPUT_SIZE` bytes.
pub const TRUNCATION_NOTICE: &'static str = "\n[output truncated]";

/// The result of one tool.
#[derive(Debug)]
pub struct ToolResult {
    pub name: &'static str,
    pub output: String,
    pub success: bool,
}

impl ToolResult {
    /// The result of a tool that did not run, or whose run gave nothing
    /// usable: not successful, no output.
    pub fn skipped(name: &'static str) -> (r: ToolResult)
        ensures
            r.name == name,
            r.output@ == Seq::<char>::empty(),
            !r.success,
    {
        ToolResult { name, output: String::new(), success: false }
    }
}

/// What the bytes of an output stream read as: std's
/// `String::from_utf8_lossy`, which puts U+FFFD for invalid sequences.
pub uninterp spec fn lossy_utf8(bytes: Seq<u8>) -> Seq<char>;

/// Calls `String::from_utf8_lossy`. Claims that the result depends on the
/// bytes alone and, as std documents, that valid UTF-8 is decoded unchanged;
/// which replacement characters stand for invalid input is left unsaid.
#[verifier::external_body]
fn utf8_lossy(bytes: &[u8]) -> (r: String)
    ensures
        r@ == lossy_utf8(bytes@),
        valid_utf8(bytes@) ==> r@ == decode_utf8(bytes@),
{
    String::from_utf8_lossy(bytes).into_owned()
}

/// Output within the size limit, else its first `MAX_OUTPUT_SIZE` bytes and
/// a notice.
pub open spec fn truncated(s: Seq<char>) -> Seq<char> {
    let bytes = encode_utf8(s);
    if bytes.len() <= MAX_OUTPUT_SIZE {
        s
    } else {
        decode_utf8(bytes.subrange(0, MAX_OUTPUT_SIZE as int)) + TRUNCATION_NOTICE@
    }
}

/// Cutting `s` at `MAX_OUTPUT_SIZE` bytes does not split a character (or
/// `s` needs no cutting).
pub open spec fn cuttable(s: Seq<char>) -> bool {
    encode_utf8(s).len() <= MAX_OUTPUT_SIZE || is_char_boundary(encode_utf8(s), MAX_OUTPUT_SIZE as int)
}

/// Keeps at most `MAX_OUTPUT_SIZE` bytes of `s`, marking a cut with
/// `TRUNCATION_NOTICE`. The cut must fall between characters.
pub fn truncate_output(s: &str) -> (r: String)
    requires
        cuttable(s@),
    ensures
        r@ == truncated(s@),
{
    if s.as_bytes().len() <= MAX_OUTPUT_SIZE {
        String::from_str(s)
    } else {
        let (head, _tail) = s.split_at(MAX_OUTPUT_SIZE);
        proof {
            encode_utf8_decode_utf8(head@);
        }
        let mut t = String::from_str(head);
        t.append(TRUNCATION_NOTICE);
        t
    }
}

/// The two streams of a finished command as one text: the one that is not
/// empty, or both with a line break between them.
pub open spec fn joined_streams(out: Seq<char>, err: Seq<char>) -> Seq<char> {
    if out.len() == 0 {
        err
    } else if err.len() == 0 {
        out
    } else {
        out + seq!['\n'] + err
    }
}

/// What `combine_output` gives for the raw streams of a command.
pub open spec fn combined_output(stdout: Seq<u8>, stderr: Seq<u8>) -> Option<Seq<char>> {
    let clean = sanitized(joined_streams(lossy_utf8(stdout), lossy_utf8(stderr)));
    if cuttable(clean) {
        Some(truncated(clean))
    } else {
        None
    }
}

/// The output a tool contributes: both streams read as UTF-8 (lossily),
/// joined, cleaned by `sanitize` and cut to `MAX_OUTPUT_SIZE` bytes. `None`
/// where the cut would fall inside a character: there the tool's result is
/// `ToolResult::skipped`.
pub fn combine_output(stdout: &[u8], stderr: &[u8]) -> (r: Option<String>)
    ensures
        r.deep_view() == combined_output(stdout@, stderr@),
{
    let out = utf8_lossy(stdout);
    let err = utf8_lossy(stderr);
    let text = if out.as_str().is_empty() {
        err
    } else if err.as_str().is_empty() {
        out
    } else {
        let mut t = String::from_str(out.as_str());
        t.append("\n");
        t.append(err.as_str());
        proof {
            reveal_strlit("\n");
            assert(t@ =~= out@ + seq!['\n'] + err@);
        }
        t
    };
    let clean = sanitize(text.as_str());
    let s = clean.as_str();
    if s.as_bytes().len() <= MAX_OUTPUT_SIZE || s.is_char_boundary(MAX_OUTPUT_SIZE) {
        Some(truncate_output(s))
    } else {
        None
    }
}

/// How a tool's command ended.
pub enum CommandOutcome {
    /// The command ran to its end.
    Finished { success: bool, stdout: Vec<u8>, stderr: Vec<u8> },
    /// The command could not be started or awaited.
    Failed,
    /// The command did not end within the time limit.
    TimedOut,
    /// The worker waiting for the command went away without an answer.
    Lost,
}

impl ToolResult {
    /// The result of tool `name` from how its command ended: a finished
    /// command gives its success and combined output (skipped when there is
    /// no usable output, see `combine_output`); any other ending gives
    /// `skipped(name)`.
    pub fn from_outcome(name: &'static str, outcome: CommandOutcome) -> (r: ToolResult)
        ensures
            r.name == name,
            match outcome {
                CommandOutcome::Finished { success, stdout, stderr } => match combined_output(
                    stdout@,
                    stderr@,
                ) {
                    Some(text) => r.success == success && r.output@ == text,
                    None => !r.success && r.output@ == Seq::<char>::empty(),
                },
                _ => !r.success && r.output@ == Seq::<char>::empty(),
            },
    {
        match outcome {
            CommandOutcome::Finished { success, stdout, stderr } => {
                match combine_output(stdout.as_slice(), stderr.as_slice()) {
                    Some(output) => ToolResult { name, output, success },
                    None => ToolResult::skipped(name),
                }
            },
            _ => ToolResult::skipped(name),
        }
    }
}

/// The program a tool command runs.
#[derive(Debug, Clone, Copy, PartialEq, Eq)]
pub enum Program {
    /// `cargo`, found on the search path.
    Cargo,
    /// A Node tool of this name: the project's `node_modules/.bin` copy when
    /// there is one (see `resolve_bin`), else the name on the search path.
    NodeBin(&'static str),
}

/// A command a tool runs in the project root.
#[derive(Debug)]
pub struct ToolCommand {
    /// The tool's name, which its result carries.
    pub name: &'static str,
    pub program: Program,
    pub args: Vec<&'static str>,
    /// A command that must be installed first; without it the tool is skipped.
    pub requires_installed: Option<&'static str>,
}

/// What a tool does next: give a result without running, or run a command.
#[derive(Debug)]
pub enum ToolStep {
    Skip(ToolResult),
    Invoke(ToolCommand),
}

/// `step` skips tool `name`: a result that is not successful and has no output.
pub open spec fn skips(step: ToolStep, name: &'static str) -> bool {
    step matches ToolStep::Skip(r) && r.name == name && !r.success && r.output@.len() == 0
}

/// `step` runs `program` with `args` for tool `name`, after checking that
/// `requires` is installed when it names a command.
pub open spec fn invokes(
    step: ToolStep,
    name: &'static str,
    program: Program,
    args: Seq<&'static str>,
    requires: Option<&'static str>,
) -> bool {
    step matches ToolStep::Invoke(c) && c.name == name && c.program == program && c.args@ == args
        && c.requires_installed == requires
}

impl ToolStep {
    /// The name of the tool the step belongs to.
    pub open spec fn tool_name(self) -> &'static str {
        match self {
            ToolStep::Skip(r) => r.name,
            ToolStep::Invoke(c) => c.name,
        }
    }

    /// The name of the tool the step belongs to.
    pub fn name(&self) -> (r: &'static str)
        ensures
            r == self.tool_name(),
    {
        match self {
            ToolStep::Skip(r) => r.name,
            ToolStep::Invoke(c) => c.name,
        }
    }
}

impl ToolCommand {
    /// The step once it is known whether the required command is installed:
    /// skipped when it is required and missing, otherwise the same command
    /// with nothing left to check.
    pub fn after_install_check(self, installed: bool) -> (step: ToolStep)
        ensures
            (self.requires_installed is Some && !installed) ==> skips(step, self.name),
            !(self.requires_installed is Some && !installed) ==> invokes(
                step,
                self.name,
                self.program,
                self.args@,
                None,
            ),
    {
        if self.requires_installed.is_some() && !installed {
            ToolStep::Skip(ToolResult::skipped(self.name))
        } else {
            ToolStep::Invoke(ToolCommand {
                name: self.name,
                program: self.program,
                args: self.args,
                requires_installed: None,
            })
        }
    }
}

/// The tools the hook knows, in the order it starts them.
#[derive(Debug, Clone, Copy, PartialEq, Eq, Structural)]
pub enum Tool {
    Knip,
    Oxlint,
    Tsgo,
    ReactDoctor,
    Clippy,
    CargoCheck,
    CargoTest,
    Audit,
    Machete,
}

/// The configuration switch of tool `t`.
pub open spec fn switched_on(t: Tool, c: ToolsConfig) -> bool {
    match t {
        Tool::Knip => c.knip,
        Tool::Oxlint => c.oxlint,
        Tool::Tsgo => c.tsgo,
        Tool::ReactDoctor => c.react_doctor,
        Tool::Clippy => c.clippy,
        Tool::CargoCheck => c.cargo_check,
        Tool::CargoTest => c.cargo_test,
        Tool::Audit => c.audit,
        Tool::Machete => c.machete,
    }
}

/// Every tool, in the order they are started.
pub open spec fn all_tools() -> Seq<Tool> {
    seq![
        Tool::Knip,
        Tool::Oxlint,
        Tool::Tsgo,
        Tool::ReactDoctor,
        Tool::Clippy,
        Tool::CargoCheck,
        Tool::CargoTest,
        Tool::Audit,
        Tool::Machete,
    ]
}

/// The tools of `ts` whose switch is on under `c`, in order.
pub open spec fn select(ts: Seq<Tool>, c: ToolsConfig) -> Seq<Tool>
    decreases ts.len(),
{
    if ts.len() == 0 {
        Seq::empty()
    } else {
        let prev = select(ts.drop_last(), c);
        if switched_on(ts.last(), c) {
            prev.push(ts.last())
        } else {
            prev
        }
    }
}

/// The tools to start under the switches `c`, in their fixed order: every
/// tool whose switch is on.
pub open spec fn planned(c: ToolsConfig) -> Seq<Tool> {
    select(all_tools(), c)
}

/// The step a tool takes first for the project `info`: a tool is skipped
/// when the project lacks what it needs, otherwise it runs its command.
pub open spec fn first_step(t: Tool, info: ProjectInfo, step: ToolStep) -> bool {
    match t {
        Tool::Knip => if info.has_package_json {
            invokes(step, "knip", Program::NodeBin("knip"), seq!["--reporter", "json", "--no-exit-code"], None)
        } else {
            skips(step, "knip")
        },
        Tool::Oxlint => if info.has_package_json {
            invokes(step, "oxlint", Program::NodeBin("oxlint"), seq!["--format", "json", "."], None)
        } else {
            skips(step, "oxlint")
        },
        Tool::Tsgo => if info.has_tsconfig {
            invokes(step, "tsgo", Program::NodeBin("tsgo"), seq!["--noEmit"], None)
        } else {
            skips(step, "tsgo")
        },
        Tool::ReactDoctor => if info.has_react {
            invokes(step, "react-doctor", Program::NodeBin("react-doctor"), seq![".", "--verbose"], None)
        } else {
            skips(step, "react-doctor")
        },
        Tool::Clippy => if info.has_cargo_toml {
            invokes(
                step,
                "clippy",
                Program::Cargo,
                seq!["clippy", "--message-format=short", "--", "-W", "clippy::all"],
                None,
            )
        } else {
            skips(step, "clippy")
        },
        Tool::CargoCheck => if info.has_cargo_toml {
            invokes(step, "check", Program::Cargo, seq!["check", "--message-format=short"], None)
        } else {
            skips(step, "check")
        },
        Tool::CargoTest => if info.has_cargo_toml {
            invokes(step, "test", Program::Cargo, seq!["test", "--no-fail-fast"], None)
        } else {
            skips(step, "test")
        },
        Tool::Audit => if info.has_cargo_toml {
            invokes(step, "audit", Program::Cargo, seq!["audit"], Some("cargo-audit"))
        } else {
            skips(step, "audit")
        },
        Tool::Machete => if info.has_cargo_toml {
            invokes(step, "machete", Program::Cargo, seq!["machete"], Some("cargo-machete"))
        } else {
            skips(step, "machete")
        },
    }
}

impl Tool {
    /// The name under which the tool reports.
    pub open spec fn spec_label(self) -> &'static str {
        match self {
            Tool::Knip => "knip",
            Tool::Oxlint => "oxlint",
            Tool::Tsgo => "tsgo",
            Tool::ReactDoctor => "react-doctor",
            Tool::Clippy => "clippy",
            Tool::CargoCheck => "check",
            Tool::CargoTest => "test",
            Tool::Audit => "audit",
            Tool::Machete => "machete",
        }
    }

    /// The name under which the tool reports.
    pub fn label(&self) -> (r: &'static str)
        ensures
            r == self.spec_label(),
    {
        match self {
            Tool::Knip => "knip",
            Tool::Oxlint => "oxlint",
            Tool::Tsgo => "tsgo",
            Tool::ReactDoctor => "react-doctor",
            Tool::Clippy => "clippy",
            Tool::CargoCheck => "check",
            Tool::CargoTest => "test",
            Tool::Audit => "audit",
            Tool::Machete => "machete",
        }
    }

    /// The first step of the tool for the project `info`.
    pub fn run(&self, info: &ProjectInfo) -> (step: ToolStep)
        ensures
            first_step(*self, *info, step),
            step.tool_name() == self.spec_label(),
            *self == Tool::Knip ==> (!info.has_package_json ==> skips(step, "knip")),
            *self == Tool::Knip ==> (info.has_package_json ==> invokes(step, "knip", Program::NodeBin("knip"), seq!["--reporter", "json", "--no-exit-code"], None)),
            *self == Tool::Oxlint ==> (!info.has_package_json ==> skips(step, "oxlint")),
            *self == Tool::Oxlint ==> (info.has_package_json ==> invokes(step, "oxlint", Program::NodeBin("oxlint"), seq!["--format", "json", "."], None)),
            *self == Tool::Tsgo ==> (!info.has_tsconfig ==> skips(step, "tsgo")),
            *self == Tool::Tsgo ==> (info.has_tsconfig ==> invokes(step, "tsgo", Program::NodeBin("tsgo"), seq!["--noEmit"], None)),
            *self == Tool::ReactDoctor ==> (!info.has_react ==> skips(step, "react-doctor")),
            *self == Tool::ReactDoctor ==> (info.has_react ==> invokes(step, "react-doctor", Program::NodeBin("react-doctor"), seq![".", "--verbose"], None)),
            *self == Tool::Clippy ==> (!info.has_cargo_toml ==> skips(step, "clippy")),
            *self == Tool::Clippy ==> (info.has_cargo_toml ==> invokes(step, "clippy", Program::Cargo, seq!["clippy", "--message-format=short", "--", "-W", "clippy::all"], None)),
            *self == Tool::CargoCheck ==> (!info.has_cargo_toml ==> skips(step, "check")),
            *self == Tool::CargoCheck ==> (info.has_cargo_toml ==> invokes(step, "check", Program::Cargo, seq!["check", "--message-format=short"], None)),
            *self == Tool::CargoTest ==> (!info.has_cargo_toml ==> skips(step, "test")),
            *self == Tool::CargoTest ==> (info.has_cargo_toml ==> invokes(step, "test", Program::Cargo, seq!["test", "--no-fail-fast"], None)),
            *self == Tool::Audit ==> (!info.has_cargo_toml ==> skips(step, "audit")),
            *self == Tool::Audit ==> (info.has_cargo_toml ==> invokes(step, "audit", Program::Cargo, seq!["audit"], Some("cargo-audit"))),
            *self == Tool::Machete ==> (!info.has_cargo_toml ==> skips(step, "machete")),
            *self == Tool::Machete ==> (info.has_cargo_toml ==> invokes(step, "machete", Program::Cargo, seq!["machete"], Some("cargo-machete"))),
    {
        match self {
            Tool::Knip => knip::run(info),
            Tool::Oxlint => oxlint::run(info),
            Tool::Tsgo => tsgo::run(info),
            Tool::ReactDoctor => react_doctor::run(info),
            Tool::Clippy => clippy::run(info),
            Tool::CargoCheck => cargo_check::run(info),
            Tool::CargoTest => cargo_test::run(info),
            Tool::Audit => audit::run(info),
            Tool::Machete => machete::run(info),
        }
    }
}

impl Tool {
    /// Whether the tool's switch is on in `c`.
    pub fn is_switched_on(&self, c: &ToolsConfig) -> (r: bool)
        ensures
            r == switched_on(*self, *c),
    {
        match self {
            Tool::Knip => c.knip,
            Tool::Oxlint => c.oxlint,
            Tool::Tsgo => c.tsgo,
            Tool::ReactDoctor => c.react_doctor,
            Tool::Clippy => c.clippy,
            Tool::CargoCheck => c.cargo_check,
            Tool::CargoTest => c.cargo_test,
            Tool::Audit => c.audit,
            Tool::Machete => c.machete,
        }
    }
}

/// The tools to start under the switches `tools`, in their fixed order:
/// exactly those whose switch is on. Whether the hook is on at all is the
/// caller's to check.
pub fn tools_to_run(tools: &ToolsConfig) -> (r: Vec<Tool>)
    ensures
        r@ == planned(*tools),
        forall|i: int, j: int| 0 <= i < j < r@.len() ==> start_rank(#[trigger] r@[i]) < start_rank(#[trigger] r@[j]),
        r@.contains(Tool::Knip) == tools.knip,
        r@.contains(Tool::Oxlint) == tools.oxlint,
        r@.contains(Tool::Tsgo) == tools.tsgo,
        r@.contains(Tool::ReactDoctor) == tools.react_doctor,
        r@.contains(Tool::Clippy) == tools.clippy,
        r@.contains(Tool::CargoCheck) == tools.cargo_check,
        r@.contains(Tool::CargoTest) == tools.cargo_test,
        r@.contains(Tool::Audit) == tools.audit,
        r@.contains(Tool::Machete) == tools.machete,
{
    let mut plan: Vec<Tool> = Vec::new();
    let all = vec![
        Tool::Knip,
        Tool::Oxlint,
        Tool::Tsgo,
        Tool::ReactDoctor,
        Tool::Clippy,
        Tool::CargoCheck,
        Tool::CargoTest,
        Tool::Audit,
        Tool::Machete,
    ];
    assert(all@ =~= all_tools());
    let mut i: usize = 0;
    assert(all@.take(0) =~= Seq::<Tool>::empty());
    while i < all.len()
        invariant
            i <= all@.len(),
            all@ == all_tools(),
            plan@ == select(all@.take(i as int), *tools),
        decreases all@.len() - i,
    {
        let t = all[i];
        assert(all@.take(i + 1).drop_last() =~= all@.take(i as int));
        assert(all@.take(i + 1).last() == t);
        if t.is_switched_on(tools) {
            plan.push(t);
        }
        i = i + 1;
    }
    assert(all@.take(all@.len() as int) =~= all@);
    proof {
        lemma_plan_follows_each_switch(*tools);
        lemma_plan_in_fixed_order(*tools);
    }
    plan
}

/// Output within the size limit passes unchanged; longer output keeps a
/// proper prefix of exactly `MAX_OUTPUT_SIZE` bytes, followed by the notice.
pub proof fn lemma_truncation_keeps_prefix(s: Seq<char>)
    requires
        cuttable(s),
    ensures
        encode_utf8(s).len() <= MAX_OUTPUT_SIZE ==> truncated(s) == s,
        encode_utf8(s).len() > MAX_OUTPUT_SIZE ==> exists|k: int|
            0 <= k < s.len() && truncated(s) == s.take(k) + TRUNCATION_NOTICE@ && encode_utf8(
                #[trigger] s.take(k),
            ).len() == MAX_OUTPUT_SIZE,
{
    let b = encode_utf8(s);
    if b.len() > MAX_OUTPUT_SIZE {
        let m = MAX_OUTPUT_SIZE as int;
        encode_utf8_valid_utf8(s);
        encode_utf8_decode_utf8(s);
        decode_utf8_split(b, m);
        valid_utf8_split(b, m);
        let head = b.subrange(0, m);
        let rest = b.subrange(m, b.len() as int);
        let p = decode_utf8(head);
        let q = decode_utf8(rest);
        decode_utf8_encode_utf8(head);
        decode_utf8_encode_utf8(rest);
        assert(s =~= p + q);
        assert(p =~= s.take(p.len() as int));
        assert(q.len() > 0) by {
            if q.len() == 0 {
                assert(rest.len() > 0);
                assert(encode_utf8(q) =~= Seq::<u8>::empty());
            }
        }
        assert(encode_utf8(s.take(p.len() as int)).len() == MAX_OUTPUT_SIZE);
    }
}

/// The selected tools are those of `ts` whose switch is on, without repeats
/// when `ts` has none.
proof fn lemma_select(ts: Seq<Tool>, c: ToolsConfig)
    ensures
        forall|t: Tool| #[trigger] select(ts, c).contains(t) <==> (ts.contains(t) && switched_on(t, c)),
        ts.no_duplicates() ==> select(ts, c).no_duplicates(),
    decreases ts.len(),
{
    if ts.len() > 0 {
        let front = ts.drop_last();
        lemma_select(front, c);
        let prev = select(front, c);
        assert forall|t: Tool| #[trigger] select(ts, c).contains(t) <==> (ts.contains(t)
            && switched_on(t, c)) by {
            if ts.contains(t) && switched_on(t, c) {
                let k = choose|k: int| 0 <= k < ts.len() && ts[k] == t;
                if k < ts.len() - 1 {
                    assert(front[k] == t);
                    assert(prev.contains(t));
                    let m = choose|m: int| 0 <= m < prev.len() && prev[m] == t;
                    assert(select(ts, c)[m] == t);
                } else {
                    assert(select(ts, c)[select(ts, c).len() - 1] == t);
                }
            }
            if select(ts, c).contains(t) {
                let m = choose|m: int| 0 <= m < select(ts, c).len() && select(ts, c)[m] == t;
                if switched_on(ts.last(), c) && m == prev.len() {
                    assert(ts[ts.len() - 1] == t);
                } else {
                    assert(prev[m] == t);
                    assert(prev.contains(t));
                    let k = choose|k: int| 0 <= k < front.len() && front[k] == t;
                    assert(ts[k] == t);
                }
            }
        }
        if ts.no_duplicates() {
            assert(front.no_duplicates()) by {
                assert forall|i: int, j: int| 0 <= i < front.len() && 0 <= j < front.len() && i
                    != j implies front[i] != front[j] by {
                    assert(front[i] == ts[i] && front[j] == ts[j]);
                }
            }
            if switched_on(ts.last(), c) {
                assert(!prev.contains(ts.last())) by {
                    if prev.contains(ts.last()) {
                        let k = choose|k: int| 0 <= k < front.len() && front[k] == ts.last();
                        assert(ts[k] == ts[ts.len() - 1]);
                    }
                }
                let r = select(ts, c);
                assert forall|i: int, j: int| 0 <= i < r.len() && 0 <= j < r.len() && i != j
                    implies r[i] != r[j] by {
                    if i == prev.len() {
                        assert(prev[j] == r[j]);
                    } else if j == prev.len() {
                        assert(prev[i] == r[i]);
                    }
                }
            }
        }
    }
}

/// A tool is started exactly when its switch is on, and no tool is started
/// twice.
pub proof fn lemma_plan_is_the_switched_on_tools(c: ToolsConfig, t: Tool)
    ensures
        planned(c).contains(t) <==> switched_on(t, c),
        planned(c).no_duplicates(),
{
    lemma_select(all_tools(), c);
    let a = all_tools();
    assert(a.contains(t)) by {
        match t {
            Tool::Knip => assert(a[0] == t),
            Tool::Oxlint => assert(a[1] == t),
            Tool::Tsgo => assert(a[2] == t),
            Tool::ReactDoctor => assert(a[3] == t),
            Tool::Clippy => assert(a[4] == t),
            Tool::CargoCheck => assert(a[5] == t),
            Tool::CargoTest => assert(a[6] == t),
            Tool::Audit => assert(a[7] == t),
            Tool::Machete => assert(a[8] == t),
        }
    }
    assert(a.no_duplicates());
}

/// Each tool is planned exactly when its own switch is on.
pub proof fn lemma_plan_follows_each_switch(c: ToolsConfig)
    ensures
        planned(c).contains(Tool::Knip) == c.knip,
        planned(c).contains(Tool::Oxlint) == c.oxlint,
        planned(c).contains(Tool::Tsgo) == c.tsgo,
        planned(c).contains(Tool::ReactDoctor) == c.react_doctor,
        planned(c).contains(Tool::Clippy) == c.clippy,
        planned(c).contains(Tool::CargoCheck) == c.cargo_check,
        planned(c).contains(Tool::CargoTest) == c.cargo_test,
        planned(c).contains(Tool::Audit) == c.audit,
        planned(c).contains(Tool::Machete) == c.machete,
{
    lemma_plan_is_the_switched_on_tools(c, Tool::Knip);
    lemma_plan_is_the_switched_on_tools(c, Tool::Oxlint);
    lemma_plan_is_the_switched_on_tools(c, Tool::Tsgo);
    lemma_plan_is_the_switched_on_tools(c, Tool::ReactDoctor);
    lemma_plan_is_the_switched_on_tools(c, Tool::Clippy);
    lemma_plan_is_the_switched_on_tools(c, Tool::CargoCheck);
    lemma_plan_is_the_switched_on_tools(c, Tool::CargoTest);
    lemma_plan_is_the_switched_on_tools(c, Tool::Audit);
    lemma_plan_is_the_switched_on_tools(c, Tool::Machete);
}

/// A tool's first step is a skip exactly when the project lacks what that
/// tool needs: `package.json` for knip and oxlint, `tsconfig.json` for tsgo,
/// a React dependency for react-doctor, `Cargo.toml` for the Cargo tools.
pub proof fn lemma_first_step_skips_exactly_without_prerequisite(t: Tool, info: ProjectInfo, step: ToolStep)
    requires
        first_step(t, info, step),
    ensures
        (step is Skip) <==> match t {
            Tool::Knip => !info.has_package_json,
            Tool::Oxlint => !info.has_package_json,
            Tool::Tsgo => !info.has_tsconfig,
            Tool::ReactDoctor => !info.has_react,
            Tool::Clippy => !info.has_cargo_toml,
            Tool::CargoCheck => !info.has_cargo_toml,
            Tool::CargoTest => !info.has_cargo_toml,
            Tool::Audit => !info.has_cargo_toml,
            Tool::Machete => !info.has_cargo_toml,
        },
        step matches ToolStep::Skip(r) ==> !r.success && r.output@.len() == 0 && r.name == t.spec_label(),
{
}

/// The place of each tool in the fixed starting order.
pub open spec fn start_rank(t: Tool) -> int {
    match t {
        Tool::Knip => 0,
        Tool::Oxlint => 1,
        Tool::Tsgo => 2,
        Tool::ReactDoctor => 3,
        Tool::Clippy => 4,
        Tool::CargoCheck => 5,
        Tool::CargoTest => 6,
        Tool::Audit => 7,
        Tool::Machete => 8,
    }
}

/// Selecting from a sequence in starting order keeps starting order.
proof fn lemma_select_keeps_order(ts: Seq<Tool>, c: ToolsConfig)
    requires
        forall|i: int, j: int| 0 <= i < j < ts.len() ==> start_rank(#[trigger] ts[i]) < start_rank(#[trigger] ts[j]),
    ensures
        forall|i: int, j: int|
            0 <= i < j < select(ts, c).len() ==> start_rank(#[trigger] select(ts, c)[i]) < start_rank(
                #[trigger] select(ts, c)[j],
            ),
    decreases ts.len(),
{
    if ts.len() > 0 {
        let front = ts.drop_last();
        lemma_select_keeps_order(front, c);
        lemma_select(front, c);
        let prev = select(front, c);
        if switched_on(ts.last(), c) {
            let r = select(ts, c);
            assert forall|i: int, j: int| 0 <= i < j < r.len() implies start_rank(#[trigger] r[i])
                < start_rank(#[trigger] r[j]) by {
                if j == prev.len() {
                    assert(prev.contains(r[i]));
                    let k = choose|k: int| 0 <= k < front.len() && front[k] == r[i];
                    assert(ts[k] == r[i]);
                    assert(ts[ts.len() - 1] == r[j]);
                } else {
                    assert(r[i] == prev[i] && r[j] == prev[j]);
                }
            }
        }
    }
}

/// The tools are started in the fixed order knip, oxlint, tsgo,
/// react-doctor, clippy, check, test, audit, machete, whatever the switches.
pub proof fn lemma_plan_in_fixed_order(c: ToolsConfig)
    ensures
        forall|i: int, j: int|
            0 <= i < j < planned(c).len() ==> start_rank(#[trigger] planned(c)[i]) < start_rank(
                #[trigger] planned(c)[j],
            ),
{
    lemma_select_keeps_order(all_tools(), c);
}

} // verus!
