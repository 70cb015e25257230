use reviews::config::{Config, ProjectConfig, ProjectToolsConfig, ToolsConfig};
use reviews::tools::{tools_to_run, Tool};
use reviews::traverse::DirProbe;

fn no_tools() -> ProjectToolsConfig {
    ProjectToolsConfig {
        knip: None,
        oxlint: None,
        tsgo: None,
        react_doctor: None,
        clippy: None,
        cargo_check: None,
        cargo_test: None,
        audit: None,
        machete: None,
    }
}

fn probe(target_exists: bool, has_git: bool) -> DirProbe {
    DirProbe { target_exists, has_git }
}

#[test]
fn default_config_all_tools_enabled() {
    let config = Config::load(None);
    assert!(config.enabled);
    assert!(config.tools.knip);
    assert!(config.tools.oxlint);
    assert!(config.tools.tsgo);
    assert!(config.tools.react_doctor);
    assert!(config.tools.clippy);
    assert!(config.tools.cargo_check);
    assert!(config.tools.cargo_test);
    assert!(config.tools.audit);
    assert!(config.tools.machete);
}

#[test]
fn partial_config_merges_with_defaults() {
    // {"tools": {"knip": false}}
    let project = ProjectConfig { enabled: None, tools: Some(ProjectToolsConfig { knip: Some(false), ..no_tools() }) };
    let config = Config::load(Some(project));
    assert!(config.enabled);
    assert!(!config.tools.knip);
    assert!(config.tools.oxlint);
    assert!(config.tools.tsgo);
    assert!(config.tools.react_doctor);
}

#[test]
fn enabled_false_disables_all() {
    // {"enabled": false}
    let config = Config::load(Some(ProjectConfig { enabled: Some(false), tools: None }));
    assert!(!config.enabled);
}

#[test]
fn invalid_json_falls_back_to_default() {
    // a file that does not parse reaches the library as `None`
    let config = Config::load(None);
    assert!(config.enabled);
    assert!(config.tools.knip);
}

#[test]
fn finds_config_in_parent_directory() {
    // start at <tmp>/src/components; the file and .git are in <tmp>
    let probes = vec![probe(false, false), probe(false, false), probe(true, true)];
    assert_eq!(Config::find_config(&probes), Some(2));
    // the file found there holds {"tools": {"knip": false}}
    let project = ProjectConfig { enabled: None, tools: Some(ProjectToolsConfig { knip: Some(false), ..no_tools() }) };
    let config = Config::load(Some(project));
    assert!(!config.tools.knip);
}

#[test]
fn find_config_stops_at_git_boundary() {
    let probes = vec![probe(false, false), probe(false, true), probe(true, false)];
    assert_eq!(Config::find_config(&probes), None);
}

#[test]
fn find_config_prefers_nearest_and_respects_depth() {
    let probes = vec![probe(false, false), probe(true, false), probe(true, true)];
    assert_eq!(Config::find_config(&probes), Some(1));
    let mut deep = vec![probe(false, false); 20];
    deep.push(probe(true, false));
    assert_eq!(Config::find_config(&deep), None);
    let mut edge = vec![probe(false, false); 19];
    edge.push(probe(true, false));
    assert_eq!(Config::find_config(&edge), Some(19));
}

#[test]
fn merge_keeps_unnamed_settings() {
    let base = Config { enabled: false, tools: ToolsConfig { machete: false, ..ToolsConfig::default() } };
    let merged = base.merge(ProjectConfig { enabled: None, tools: Some(ProjectToolsConfig { tsgo: Some(false), ..no_tools() }) });
    assert!(!merged.enabled);
    assert!(!merged.tools.machete);
    assert!(!merged.tools.tsgo);
    assert!(merged.tools.knip);
    let same = base.merge(ProjectConfig { enabled: None, tools: None });
    assert_eq!(same, base);
}

#[test]
fn apply_overrides_only_given_fields() {
    let mut tools = ToolsConfig::default();
    tools.apply(&ProjectToolsConfig { audit: Some(false), cargo_test: Some(true), ..no_tools() });
    assert!(!tools.audit);
    assert!(tools.cargo_test);
    assert!(tools.clippy);
}

#[test]
fn tools_to_run_follows_switches_in_order() {
    let all = tools_to_run(&Config::default().tools);
    assert_eq!(
        all,
        vec![Tool::Knip, Tool::Oxlint, Tool::Tsgo, Tool::ReactDoctor, Tool::Clippy, Tool::CargoCheck, Tool::CargoTest, Tool::Audit, Tool::Machete]
    );
    let config = Config::load(Some(ProjectConfig {
        enabled: None,
        tools: Some(ProjectToolsConfig { oxlint: Some(false), machete: Some(false), ..no_tools() }),
    }));
    assert_eq!(
        tools_to_run(&config.tools),
        vec![Tool::Knip, Tool::Tsgo, Tool::ReactDoctor, Tool::Clippy, Tool::CargoCheck, Tool::CargoTest, Tool::Audit]
    );
}

#[test]
fn merging_twice_is_merging_once() {
    let p = ProjectConfig { enabled: Some(false), tools: Some(ProjectToolsConfig { clippy: Some(false), ..no_tools() }) };
    let once = Config::default().merge(p);
    assert_eq!(once.merge(p), once);
}

#[test]
fn later_project_file_wins() {
    let p = ProjectConfig { enabled: Some(false), tools: Some(ProjectToolsConfig { knip: Some(false), tsgo: Some(false), ..no_tools() }) };
    let q = ProjectConfig { enabled: Some(true), tools: Some(ProjectToolsConfig { knip: Some(true), ..no_tools() }) };
    let both = Config::default().merge(p).merge(q);
    assert!(both.enabled);
    assert!(both.tools.knip);
    assert!(!both.tools.tsgo);
}

#[test]
fn tools_to_run_ignores_the_hook_switch() {
    let config = Config::load(Some(ProjectConfig { enabled: Some(false), tools: Some(ProjectToolsConfig { knip: Some(true), ..no_tools() }) }));
    assert!(!config.enabled);
    assert_eq!(tools_to_run(&config.tools).len(), 9);
}
