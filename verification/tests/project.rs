use reviews::project::{detect_react, lists_react, ProjectInfo};
use reviews::traverse::{nearest_boundary, walk_ancestors, DirProbe};
use std::path::PathBuf;

fn detect_with(package_json: Option<&str>) -> ProjectInfo {
    ProjectInfo::detect(
        PathBuf::from("/tmp/project"),
        package_json.is_some(),
        false,
        false,
        package_json.map(String::from),
    )
}

fn probe(target_exists: bool, has_git: bool) -> DirProbe {
    DirProbe { target_exists, has_git }
}

#[test]
fn detects_package_json() {
    let info = detect_with(Some("{}"));
    assert!(info.has_package_json);
    assert!(!info.has_react);
}

#[test]
fn no_package_json() {
    let info = detect_with(None);
    assert!(!info.has_package_json);
}

#[test]
fn detects_react_dependency() {
    let info = detect_with(Some(r#"{"dependencies": {"react": "^19.0.0"}}"#));
    assert!(info.has_react);
}

#[test]
fn detects_react_in_dev_dependencies() {
    let info = detect_with(Some(r#"{"devDependencies": {"react": "^19.0.0"}}"#));
    assert!(info.has_react);
}

#[test]
fn no_react_dependency() {
    let info = detect_with(Some(r#"{"dependencies": {"vue": "^3.0.0"}}"#));
    assert!(!info.has_react);
}

#[test]
fn detects_react_in_peer_dependencies() {
    let info = detect_with(Some(r#"{"peerDependencies": {"react": ">=18"}}"#));
    assert!(info.has_react);
}

#[test]
fn detects_cargo_toml() {
    let info = ProjectInfo::detect(PathBuf::from("/p"), false, false, true, None);
    assert!(info.has_cargo_toml);
    assert_eq!(info.root, PathBuf::from("/p"));
}

#[test]
fn no_cargo_toml() {
    let info = ProjectInfo::detect(PathBuf::from("/p"), false, true, false, None);
    assert!(!info.has_cargo_toml);
    assert!(info.has_tsconfig);
}

#[test]
fn malformed_package_json_no_react() {
    let info = detect_with(Some("not valid json"));
    assert!(!info.has_react);
}

#[test]
fn react_requires_package_json_to_exist() {
    let info = ProjectInfo::detect(PathBuf::from("/p"), false, false, false, Some(String::from(r#"{"dependencies": {"react": "1"}}"#)));
    assert!(!info.has_react);
}

#[test]
fn react_only_in_dependency_sections() {
    assert!(!detect_react(r#"{"optionalDependencies": {"react": "1"}, "react": {"react": 1}}"#));
    assert!(!detect_react(r#"{"dependencies": ["react"]}"#));
    assert!(!detect_react(r#"["react"]"#));
    assert!(detect_react(r#"{"name": "x", "peerDependencies": {"vue": "3", "react": "18"}}"#));
}

#[test]
fn lists_react_on_parsed_members() {
    let members = Some(vec![
        (String::from("dependencies"), Some(vec![String::from("vue")])),
        (String::from("devDependencies"), Some(vec![String::from("react")])),
    ]);
    assert!(lists_react(&members));
    assert!(!lists_react(&None));
    assert!(!lists_react(&Some(vec![(String::from("dependencies"), None)])));
}

#[test]
fn find_root_is_nearest_git_directory() {
    let probes = vec![probe(false, false), probe(false, true), probe(false, true)];
    assert_eq!(ProjectInfo::find_root(&probes), 1);
    assert_eq!(ProjectInfo::find_root(&vec![probe(false, false); 3]), 0);
    let mut far = vec![probe(false, false); 20];
    far.push(probe(false, true));
    assert_eq!(ProjectInfo::find_root(&far), 0);
    assert_eq!(nearest_boundary(&far), None);
}

#[test]
fn finds_bin_in_node_modules() {
    // <tmp>/node_modules/.bin/knip exists, no .git anywhere
    assert_eq!(walk_ancestors(&vec![probe(true, false), probe(false, false)]), Some(0));
}

#[test]
fn falls_back_to_bare_name_when_no_node_modules() {
    assert_eq!(walk_ancestors(&vec![probe(false, true), probe(false, false)]), None);
}

#[test]
fn stops_at_git_boundary() {
    // start in project/src; project has .git; the bin is one level above project
    assert_eq!(walk_ancestors(&vec![probe(false, false), probe(false, true), probe(true, false)]), None);
}
