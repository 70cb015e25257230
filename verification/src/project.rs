//! What kind of project the hook runs in.

use vstd::prelude::*;
use crate::traverse::{nearest_boundary, DirProbe, in_walk, is_first_boundary};

verus! {

/// The sections of `package.json` that can declare React.
pub open spec fn is_dependency_section(key: Seq<char>) -> bool {
    key == "dependencies"@ || key == "devDependencies"@ || key == "peerDependencies"@
}

/// What `serde_json` makes of `text`, kept to what React detection reads:
/// `None` unless `text` parses as JSON whose top-level value is an object;
/// otherwise that object's members, each with the member names of its value
/// when that value is an object (`None` when it is not).
pub uninterp spec fn json_members(text: Seq<char>) -> Option<Seq<(Seq<char>, Option<Seq<Seq<char>>>)>>;

/// Parses `text` with `serde_json::from_str::<serde_json::Value>` and hands
/// out the top-level object's members, each with the names of its own
/// members when its value is an object. The contract claims only that the
/// result is a function of `text` (named `json_members`); what `serde_json`
/// accepts and how it orders a map's keys is left unsaid.
#[verifier::external_body]
fn json_top_level_members(text: &str) -> (r: Option<Vec<(String, Option<Vec<String>>)>>)
    ensures
        r.deep_view() == json_members(text@),
{
    match serde_json::from_str::<serde_json::Value>(text) {
        Ok(serde_json::Value::Object(map)) => Some(
            map.into_iter().map(|(key, value)| match value {
                serde_json::Value::Object(inner) => (key, Some(inner.into_iter().map(|(k, _)| k).collect())),
                _ => (key, None),
            }).collect(),
        ),
        _ => None,
    }
}

/// A `package.json` whose top-level members are `members` declares React:
/// one of its dependency sections is an object with a `react` member.
pub open spec fn declares_react(members: Option<Seq<(Seq<char>, Option<Seq<Seq<char>>>)>>) -> bool {
    match members {
        None => false,
        Some(m) => exists|i: int|
            0 <= i < m.len() && is_dependency_section((#[trigger] m[i]).0) && (m[i].1 matches Some(
                names,
            ) && names.contains("react"@)),
    }
}

/// Whether `s` is one of the dependency section names.
fn names_dependency_section(s: &String) -> (r: bool)
    ensures
        r == is_dependency_section(s@),
{
    let deps = String::from_str("dependencies");
    let dev = String::from_str("devDependencies");
    let peer = String::from_str("peerDependencies");
    s.eq(&deps) || s.eq(&dev) || s.eq(&peer)
}

/// Whether `names` holds `react`.
fn contains_react(names: &Vec<String>) -> (r: bool)
    ensures
        r == names.deep_view().contains("react"@),
{
    let react = String::from_str("react");
    let mut i: usize = 0;
    while i < names.len()
        invariant
            i <= names.len(),
            react@ == "react"@,
            forall|j: int| 0 <= j < i ==> (#[trigger] names@[j])@ != "react"@,
        decreases names.len() - i,
    {
        let same = names[i].eq(&react);
        assert(same == (names@[i as int]@ == "react"@));
        if same {
            assert(names.deep_view()[i as int] == "react"@);
            return true;
        }
        i = i + 1;
    }
    assert forall|j: int| 0 <= j < names.deep_view().len() implies names.deep_view()[j] != "react"@ by {
        assert(names.deep_view()[j] == names@[j]@);
    }
    false
}

/// Whether the parsed top-level members of a `package.json` declare React.
pub fn lists_react(members: &Option<Vec<(String, Option<Vec<String>>)>>) -> (r: bool)
    ensures
        r == declares_react(members.deep_view()),
{
    match members {
        None => false,
        Some(m) => {
            let ghost dm = m.deep_view();
            assert(members.deep_view() == Some(dm));
            let mut i: usize = 0;
            while i < m.len()
                invariant
                    i <= m.len(),
                    dm == m.deep_view(),
                    members.deep_view() == Some(dm),
                    forall|j: int|
                        0 <= j < i ==> !(is_dependency_section((#[trigger] dm[j]).0) && (
                        dm[j].1 matches Some(names) && names.contains("react"@))),
                decreases m.len() - i,
            {
                let (key, value) = &m[i];
                assert(dm[i as int] == m@[i as int].deep_view());
                if names_dependency_section(key) {
                    if let Some(names) = value {
                        if contains_react(names) {
                            assert(dm[i as int].0 == key@);
                            assert(dm[i as int].1 == Some(names.deep_view()));
                            assert(is_dependency_section((dm[i as int]).0));
                            return true;
                        }
                    }
                }
                i = i + 1;
            }
            false
        },
    }
}

/// Whether a `package.json` with content `content` declares React in its
/// `dependencies`, `devDependencies` or `peerDependencies`. Content that is
/// not a JSON object declares nothing.
pub fn detect_react(content: &str) -> (r: bool)
    ensures
        r == declares_react(json_members(content@)),
{
    let members = json_top_level_members(content);
    lists_react(&members)
}

/// Paths as std holds them; the library only carries them through.
#[verifier::external_type_specification]
#[verifier::external_body]
pub struct ExPathBuf(std::path::PathBuf);

/// What the hook knows of the project.
#[derive(Debug)]
pub struct ProjectInfo {
    /// The project root.
    pub root: std::path::PathBuf,
    pub has_package_json: bool,
    pub has_tsconfig: bool,
    pub has_react: bool,
    pub has_cargo_toml: bool,
}

impl ProjectInfo {
    /// Which walked directory is the project root: the nearest one holding
    /// `.git` within `MAX_TRAVERSAL_DEPTH` directories, else the start
    /// directory (index 0).
    pub fn find_root(probes: &Vec<DirProbe>) -> (r: usize)
        ensures
            is_first_boundary(probes@, r as int) || (r == 0 && forall|i: int|
                in_walk(probes@, i) ==> !(#[trigger] probes@[i]).has_git),
    {
        match nearest_boundary(probes) {
            Some(i) => i,
            None => 0,
        }
    }

    /// The project found at `root`, given which of `package.json`,
    /// `tsconfig.json` and `Cargo.toml` exist there and the content of
    /// `package.json` (`None` when it could not be read). React counts only
    /// when `package.json` exists and declares it.
    pub fn detect(
        root: std::path::PathBuf,
        has_package_json: bool,
        has_tsconfig: bool,
        has_cargo_toml: bool,
        package_json: Option<String>,
    ) -> (r: ProjectInfo)
        ensures
            r.root == root,
            r.has_package_json == has_package_json,
            r.has_tsconfig == has_tsconfig,
            r.has_cargo_toml == has_cargo_toml,
            r.has_react == (has_package_json && match package_json {
                Some(c) => declares_react(json_members(c@)),
                None => false,
            }),
    {
        let has_react = has_package_json && match &package_json {
            Some(c) => detect_react(c.as_str()),
            None => false,
        };
        ProjectInfo { root, has_package_json, has_tsconfig, has_react, has_cargo_toml }
    }
}

/// A `package.json` declares React exactly when one of its members named
/// `dependencies`, `devDependencies` or `peerDependencies` is an object with
/// a `react` member, whatever the other members are; content that is not a
/// JSON object declares nothing.
pub proof fn lemma_react_declared_exactly(m: Seq<(Seq<char>, Option<Seq<Seq<char>>>)>)
    ensures
        !declares_react(None),
        declares_react(Some(m)) <==> exists|i: int|
            0 <= i < m.len() && ((#[trigger] m[i]).0 == "dependencies"@ || m[i].0 == "devDependencies"@
                || m[i].0 == "peerDependencies"@) && (m[i].1 matches Some(names) && names.contains(
                "react"@)),
{
}

/// Adding members to a `package.json` never hides a React declaration.
pub proof fn lemma_react_declaration_survives_more_members(
    m: Seq<(Seq<char>, Option<Seq<Seq<char>>>)>,
    extra: Seq<(Seq<char>, Option<Seq<Seq<char>>>)>,
)
    requires
        declares_react(Some(m)),
    ensures
        declares_react(Some(m + extra)),
        declares_react(Some(extra + m)),
{
    let i = choose|i: int|
        0 <= i < m.len() && is_dependency_section((#[trigger] m[i]).0) && (m[i].1 matches Some(
            names,
        ) && names.contains("react"@));
    assert((m + extra)[i] == m[i]);
    assert((extra + m)[extra.len() + i] == m[i]);
}

} // verus!
