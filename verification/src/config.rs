//! The hook's configuration: built-in defaults, merged with the optional
//! project configuration file found at or above the working directory.

use vstd::prelude::*;
use crate::traverse::{walk_ancestors, DirProbe, is_first_target, no_target};

verus! {

/// Which tools may run. Every tool is on unless the project turns it off.
#[derive(Debug, Clone, Copy, PartialEq, Eq)]
pub struct ToolsConfig {
    pub knip: bool,
    pub oxlint: bool,
    pub tsgo: bool,
    pub react_doctor: bool,
    pub clippy: bool,
    pub cargo_check: bool,
    pub cargo_test: bool,
    pub audit: bool,
    pub machete: bool,
}

/// The `tools` section of a project configuration file: each field that the
/// file names overrides the corresponding default.
#[derive(Debug, Clone, Copy, PartialEq, Eq)]
pub struct ProjectToolsConfig {
    pub knip: Option<bool>,
    pub oxlint: Option<bool>,
    pub tsgo: Option<bool>,
    pub react_doctor: Option<bool>,
    pub clippy: Option<bool>,
    pub cargo_check: Option<bool>,
    pub cargo_test: Option<bool>,
    pub audit: Option<bool>,
    pub machete: Option<bool>,
}

/// A project configuration file as written: every field is optional.
#[derive(Debug, Clone, Copy, PartialEq, Eq)]
pub struct ProjectConfig {
    pub enabled: Option<bool>,
    pub tools: Option<ProjectToolsConfig>,
}

/// The effective configuration.
#[derive(Debug, Clone, Copy, PartialEq, Eq)]
pub struct Config {
    pub enabled: bool,
    pub tools: ToolsConfig,
}

/// A setting after an optional override.
pub open spec fn overridden(base: bool, o: Option<bool>) -> bool {
    match o {
        Some(v) => v,
        None => base,
    }
}

/// Of two optional overrides, the later one wins where it is given.
pub open spec fn later_wins(first: Option<bool>, second: Option<bool>) -> Option<bool> {
    match second {
        Some(v) => Some(v),
        None => first,
    }
}

impl ToolsConfig {
    /// Every tool switched on.
    pub open spec fn all_on() -> ToolsConfig {
        ToolsConfig {
            knip: true,
            oxlint: true,
            tsgo: true,
            react_doctor: true,
            clippy: true,
            cargo_check: true,
            cargo_test: true,
            audit: true,
            machete: true,
        }
    }

    /// This configuration with the given overrides applied field by field.
    pub open spec fn with_overrides(self, o: ProjectToolsConfig) -> ToolsConfig {
        ToolsConfig {
            knip: overridden(self.knip, o.knip),
            oxlint: overridden(self.oxlint, o.oxlint),
            tsgo: overridden(self.tsgo, o.tsgo),
            react_doctor: overridden(self.react_doctor, o.react_doctor),
            clippy: overridden(self.clippy, o.clippy),
            cargo_check: overridden(self.cargo_check, o.cargo_check),
            cargo_test: overridden(self.cargo_test, o.cargo_test),
            audit: overridden(self.audit, o.audit),
            machete: overridden(self.machete, o.machete),
        }
    }

    /// Applies every override that `overrides` gives; the other fields keep
    /// their value.
    pub fn apply(&mut self, overrides: &ProjectToolsConfig)
        ensures
            *final(self) == old(self).with_overrides(*overrides),
            overrides.knip matches Some(v) ==> final(self).knip == v,
            overrides.knip is None ==> final(self).knip == old(self).knip,
            overrides.oxlint matches Some(v) ==> final(self).oxlint == v,
            overrides.oxlint is None ==> final(self).oxlint == old(self).oxlint,
            overrides.tsgo matches Some(v) ==> final(self).tsgo == v,
            overrides.tsgo is None ==> final(self).tsgo == old(self).tsgo,
            overrides.react_doctor matches Some(v) ==> final(self).react_doctor == v,
            overrides.react_doctor is None ==> final(self).react_doctor == old(self).react_doctor,
            overrides.clippy matches Some(v) ==> final(self).clippy == v,
            overrides.clippy is None ==> final(self).clippy == old(self).clippy,
            overrides.cargo_check matches Some(v) ==> final(self).cargo_check == v,
            overrides.cargo_check is None ==> final(self).cargo_check == old(self).cargo_check,
            overrides.cargo_test matches Some(v) ==> final(self).cargo_test == v,
            overrides.cargo_test is None ==> final(self).cargo_test == old(self).cargo_test,
            overrides.audit matches Some(v) ==> final(self).audit == v,
            overrides.audit is None ==> final(self).audit == old(self).audit,
            overrides.machete matches Some(v) ==> final(self).machete == v,
            overrides.machete is None ==> final(self).machete == old(self).machete,
    {
        let before = *self;
        let knip = override_setting(before.knip, overrides.knip);
        let oxlint = override_setting(before.oxlint, overrides.oxlint);
        let tsgo = override_setting(before.tsgo, overrides.tsgo);
        let react_doctor = override_setting(before.react_doctor, overrides.react_doctor);
        let clippy = override_setting(before.clippy, overrides.clippy);
        let cargo_check = override_setting(before.cargo_check, overrides.cargo_check);
        let cargo_test = override_setting(before.cargo_test, overrides.cargo_test);
        let audit = override_setting(before.audit, overrides.audit);
        let machete = override_setting(before.machete, overrides.machete);
        *self = ToolsConfig {
            knip,
            oxlint,
            tsgo,
            react_doctor,
            clippy,
            cargo_check,
            cargo_test,
            audit,
            machete,
        };
    }
}

/// One setting after an optional override.
fn override_setting(base: bool, o: Option<bool>) -> (r: bool)
    ensures
        r == overridden(base, o),
{
    match o {
        Some(v) => v,
        None => base,
    }
}

impl Default for ToolsConfig {
    fn default() -> (r: Self)
        ensures
            r == ToolsConfig::all_on(),
    {
        ToolsConfig {
            knip: true,
            oxlint: true,
            tsgo: true,
            react_doctor: true,
            clippy: true,
            cargo_check: true,
            cargo_test: true,
            audit: true,
            machete: true,
        }
    }
}

impl ProjectToolsConfig {
    /// A `tools` section that names no tool.
    pub open spec fn none_given() -> ProjectToolsConfig {
        ProjectToolsConfig {
            knip: None,
            oxlint: None,
            tsgo: None,
            react_doctor: None,
            clippy: None,
            cargo_check: None,
            cargo_test: None,
            audit: None,
            machete: None,
        }
    }

    /// The overrides of `self` followed by those of `later`.
    pub open spec fn followed_by(self, later: ProjectToolsConfig) -> ProjectToolsConfig {
        ProjectToolsConfig {
            knip: later_wins(self.knip, later.knip),
            oxlint: later_wins(self.oxlint, later.oxlint),
            tsgo: later_wins(self.tsgo, later.tsgo),
            react_doctor: later_wins(self.react_doctor, later.react_doctor),
            clippy: later_wins(self.clippy, later.clippy),
            cargo_check: later_wins(self.cargo_check, later.cargo_check),
            cargo_test: later_wins(self.cargo_test, later.cargo_test),
            audit: later_wins(self.audit, later.audit),
            machete: later_wins(self.machete, later.machete),
        }
    }
}

impl ProjectConfig {
    /// The project file `{}`.
    pub open spec fn empty() -> ProjectConfig {
        ProjectConfig { enabled: None, tools: None }
    }

    /// The file `self` followed by the file `later`, the later one winning
    /// wherever both give a value.
    pub open spec fn followed_by(self, later: ProjectConfig) -> ProjectConfig {
        ProjectConfig {
            enabled: later_wins(self.enabled, later.enabled),
            tools: match (self.tools, later.tools) {
                (Some(a), Some(b)) => Some(a.followed_by(b)),
                (Some(a), None) => Some(a),
                (None, Some(b)) => Some(b),
                (None, None) => None,
            },
        }
    }
}

impl Config {
    /// The built-in configuration: the hook is on and every tool is on.
    pub open spec fn defaults() -> Config {
        Config { enabled: true, tools: ToolsConfig::all_on() }
    }

    /// `self` with the project file `project` laid over it.
    pub open spec fn merged(self, project: ProjectConfig) -> Config {
        Config {
            enabled: overridden(self.enabled, project.enabled),
            tools: match project.tools {
                Some(t) => self.tools.with_overrides(t),
                None => self.tools,
            },
        }
    }

    /// Lays the project file over `self`: each setting the file gives
    /// replaces the current one, the others stay.
    pub fn merge(self, project: ProjectConfig) -> (r: Config)
        ensures
            r == self.merged(project),
            r.enabled == (match project.enabled {
                Some(v) => v,
                None => self.enabled,
            }),
            project.tools is None ==> r.tools == self.tools,
            project.tools matches Some(t) ==> r.tools.knip == (match t.knip {
                Some(v) => v,
                None => self.tools.knip,
            }),
            project.tools matches Some(t) ==> r.tools.oxlint == (match t.oxlint {
                Some(v) => v,
                None => self.tools.oxlint,
            }),
            project.tools matches Some(t) ==> r.tools.tsgo == (match t.tsgo {
                Some(v) => v,
                None => self.tools.tsgo,
            }),
            project.tools matches Some(t) ==> r.tools.react_doctor == (match t.react_doctor {
                Some(v) => v,
                None => self.tools.react_doctor,
            }),
            project.tools matches Some(t) ==> r.tools.clippy == (match t.clippy {
                Some(v) => v,
                None => self.tools.clippy,
            }),
            project.tools matches Some(t) ==> r.tools.cargo_check == (match t.cargo_check {
                Some(v) => v,
                None => self.tools.cargo_check,
            }),
            project.tools matches Some(t) ==> r.tools.cargo_test == (match t.cargo_test {
                Some(v) => v,
                None => self.tools.cargo_test,
            }),
            project.tools matches Some(t) ==> r.tools.audit == (match t.audit {
                Some(v) => v,
                None => self.tools.audit,
            }),
            project.tools matches Some(t) ==> r.tools.machete == (match t.machete {
                Some(v) => v,
                None => self.tools.machete,
            }),
    {
        let mut merged = self;
        if let Some(enabled) = project.enabled {
            merged.enabled = enabled;
        }
        if let Some(tools) = project.tools {
            merged.tools.apply(&tools);
        }
        merged
    }

    /// The configuration for a project: the defaults when no project file
    /// could be found, read and parsed (`None`), otherwise the defaults with
    /// the file laid over them.
    pub fn load(project: Option<ProjectConfig>) -> (r: Config)
        ensures
            r == match project {
                None => Config::defaults(),
                Some(p) => Config::defaults().merged(p),
            },
    {
        let default = Config::default();
        match project {
            None => default,
            Some(p) => default.merge(p),
        }
    }

    /// Where the project file is: the first of the walked directories that
    /// holds it, the walk stopping after a directory that holds `.git` and
    /// after `MAX_TRAVERSAL_DEPTH` directories (see `walk_ancestors`). Each
    /// probe's `target_exists` says whether the project configuration file
    /// exists there.
    pub fn find_config(probes: &Vec<DirProbe>) -> (found: Option<usize>)
        ensures
            found matches Some(i) ==> is_first_target(probes@, i as int),
            found is None <==> no_target(probes@),
    {
        walk_ancestors(probes)
    }
}

impl Default for Config {
    fn default() -> (r: Self)
        ensures
            r == Config::defaults(),
    {
        Config { enabled: true, tools: ToolsConfig::default() }
    }
}

/// A project file that gives no setting (`{}`, or `{"tools": {}}`) leaves
/// the configuration as it was.
pub proof fn lemma_empty_project_changes_nothing(c: Config)
    ensures
        c.merged(ProjectConfig::empty()) == c,
        c.merged(ProjectConfig { enabled: None, tools: Some(ProjectToolsConfig::none_given()) })
            == c,
{
}

/// Laying the same project file over a configuration twice is the same as
/// laying it once.
pub proof fn lemma_merge_idempotent(c: Config, p: ProjectConfig)
    ensures
        c.merged(p).merged(p) == c.merged(p),
{
}

/// Laying two project files over a configuration one after the other is
/// laying over it their combination in which the later file wins.
pub proof fn lemma_merge_sequential(c: Config, p: ProjectConfig, q: ProjectConfig)
    ensures
        c.merged(p).merged(q) == c.merged(p.followed_by(q)),
{
    match (p.tools, q.tools) {
        (Some(a), Some(b)) => lemma_overrides_sequential(c.tools, a, b),
        _ => {},
    }
}

/// Tool overrides applied one after the other are their combination.
proof fn lemma_overrides_sequential(t: ToolsConfig, a: ProjectToolsConfig, b: ProjectToolsConfig)
    ensures
        t.with_overrides(a).with_overrides(b) == t.with_overrides(a.followed_by(b)),
{
}

/// Each setting after laying a project file over a configuration is that
/// same setting of the file when the file gives it, else the configuration's
/// own: the hook switch follows `enabled`, and every tool switch follows the
/// file's entry for that very tool.
pub proof fn lemma_each_setting_follows_its_own_override(c: Config, p: ProjectConfig)
    ensures
        c.merged(p).enabled == (match p.enabled {
            Some(v) => v,
            None => c.enabled,
        }),
        p.tools is None ==> c.merged(p).tools == c.tools,
        p.tools matches Some(t) ==> c.merged(p).tools.knip == (match t.knip {
            Some(v) => v,
            None => c.tools.knip,
        }),
        p.tools matches Some(t) ==> c.merged(p).tools.oxlint == (match t.oxlint {
            Some(v) => v,
            None => c.tools.oxlint,
        }),
        p.tools matches Some(t) ==> c.merged(p).tools.tsgo == (match t.tsgo {
            Some(v) => v,
            None => c.tools.tsgo,
        }),
        p.tools matches Some(t) ==> c.merged(p).tools.react_doctor == (match t.react_doctor {
            Some(v) => v,
            None => c.tools.react_doctor,
        }),
        p.tools matches Some(t) ==> c.merged(p).tools.clippy == (match t.clippy {
            Some(v) => v,
            None => c.tools.clippy,
        }),
        p.tools matches Some(t) ==> c.merged(p).tools.cargo_check == (match t.cargo_check {
            Some(v) => v,
            None => c.tools.cargo_check,
        }),
        p.tools matches Some(t) ==> c.merged(p).tools.cargo_test == (match t.cargo_test {
            Some(v) => v,
            None => c.tools.cargo_test,
        }),
        p.tools matches Some(t) ==> c.merged(p).tools.audit == (match t.audit {
            Some(v) => v,
            None => c.tools.audit,
        }),
        p.tools matches Some(t) ==> c.merged(p).tools.machete == (match t.machete {
            Some(v) => v,
            None => c.tools.machete,
        }),
{
}

/// Without a project file the hook is on and every tool is on.
pub proof fn lemma_defaults_switch_everything_on()
    ensures
        Config::defaults().enabled,
        Config::defaults().tools.knip,
        Config::defaults().tools.oxlint,
        Config::defaults().tools.tsgo,
        Config::defaults().tools.react_doctor,
        Config::defaults().tools.clippy,
        Config::defaults().tools.cargo_check,
        Config::defaults().tools.cargo_test,
        Config::defaults().tools.audit,
        Config::defaults().tools.machete,
{
}

} // verus!
