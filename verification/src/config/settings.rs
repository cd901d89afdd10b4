//! Application settings and their layering: project over global over defaults.

use vstd::prelude::*;

use crate::tools::paths::{join, join_path};

verus! {

/// Application settings.
pub struct Settings {
    /// Model server URL
    pub ollama_url: String,
    /// Default model to use
    pub default_model: String,
    /// Max agent loop iterations per turn
    pub max_iterations: u32,
    /// Auto-approve read-only tool calls
    pub auto_approve_reads: bool,
    /// Token count reserved for the model's reply
    pub context_reserve_tokens: u32,
    /// Shell command timeout in seconds
    pub bash_timeout_secs: u64,
    /// Shell command patterns to always deny
    pub bash_deny_patterns: Vec<String>,
}

/// Model of the settings.
pub struct SettingsModel {
    pub ollama_url: Seq<char>,
    pub default_model: Seq<char>,
    pub max_iterations: u32,
    pub auto_approve_reads: bool,
    pub context_reserve_tokens: u32,
    pub bash_timeout_secs: u64,
    pub bash_deny_patterns: Seq<Seq<char>>,
}

impl View for Settings {
    type V = SettingsModel;

    open spec fn view(&self) -> SettingsModel {
        SettingsModel {
            ollama_url: self.ollama_url@,
            default_model: self.default_model@,
            max_iterations: self.max_iterations,
            auto_approve_reads: self.auto_approve_reads,
            context_reserve_tokens: self.context_reserve_tokens,
            bash_timeout_secs: self.bash_timeout_secs,
            bash_deny_patterns: self.bash_deny_patterns@.map_values(|p: String| p@),
        }
    }
}

pub const DEFAULT_URL: &'static str = "http://127.0.0.1:11434";
pub const DEFAULT_MODEL: &'static str = "qwen3.5:27b";
pub const DENY_RM_ROOT: &'static str = "rm -rf /";
pub const DENY_RM_HOME: &'static str = "rm -rf ~";
pub const DENY_MKFS: &'static str = "mkfs";
pub const DENY_DEV_SD: &'static str = "> /dev/sd";
pub const DENY_DD: &'static str = "dd if=";

/// The default settings.
pub open spec fn default_settings() -> SettingsModel {
    SettingsModel {
        ollama_url: DEFAULT_URL@,
        default_model: DEFAULT_MODEL@,
        max_iterations: 25,
        auto_approve_reads: true,
        context_reserve_tokens: 4096,
        bash_timeout_secs: 120,
        bash_deny_patterns: seq![DENY_RM_ROOT@, DENY_RM_HOME@, DENY_MKFS@, DENY_DEV_SD@, DENY_DD@],
    }
}

/// Layering of `over` onto `base`: every field of `over` that differs from its
/// default replaces the field of `base`.
pub open spec fn merged(base: SettingsModel, over: SettingsModel) -> SettingsModel {
    let d = default_settings();
    SettingsModel {
        ollama_url: if over.ollama_url != d.ollama_url { over.ollama_url } else { base.ollama_url },
        default_model: if over.default_model != d.default_model {
            over.default_model
        } else {
            base.default_model
        },
        max_iterations: if over.max_iterations != d.max_iterations {
            over.max_iterations
        } else {
            base.max_iterations
        },
        auto_approve_reads: if over.auto_approve_reads != d.auto_approve_reads {
            over.auto_approve_reads
        } else {
            base.auto_approve_reads
        },
        context_reserve_tokens: if over.context_reserve_tokens != d.context_reserve_tokens {
            over.context_reserve_tokens
        } else {
            base.context_reserve_tokens
        },
        bash_timeout_secs: if over.bash_timeout_secs != d.bash_timeout_secs {
            over.bash_timeout_secs
        } else {
            base.bash_timeout_secs
        },
        bash_deny_patterns: if over.bash_deny_patterns != d.bash_deny_patterns {
            over.bash_deny_patterns
        } else {
            base.bash_deny_patterns
        },
    }
}

fn string_vec_eq(a: &Vec<String>, b: &Vec<String>) -> (r: bool)
    ensures
        r == (a@.map_values(|p: String| p@) == b@.map_values(|p: String| p@)),
{
    if a.len() != b.len() {
        assert(a@.map_values(|p: String| p@).len() != b@.map_values(|p: String| p@).len());
        return false;
    }
    let mut i: usize = 0;
    while i < a.len()
        invariant
            a.len() == b.len(),
            i <= a.len(),
            forall|k: int| 0 <= k < i ==> a@[k]@ == b@[k]@,
        decreases a.len() - i,
    {
        if a[i] != b[i] {
            assert(a@.map_values(|p: String| p@)[i as int] != b@.map_values(|p: String| p@)[i as int]);
            return false;
        }
        i = i + 1;
    }
    assert(a@.map_values(|p: String| p@) =~= b@.map_values(|p: String| p@));
    true
}

fn copy_strings(a: &Vec<String>) -> (r: Vec<String>)
    ensures
        r@.map_values(|p: String| p@) == a@.map_values(|p: String| p@),
{
    let mut r: Vec<String> = Vec::new();
    let mut i: usize = 0;
    while i < a.len()
        invariant
            i <= a.len(),
            r@.len() == i,
            forall|k: int| 0 <= k < i ==> #[trigger] r@[k]@ == a@[k]@,
        decreases a.len() - i,
    {
        r.push(a[i].clone());
        i = i + 1;
    }
    assert(r@.map_values(|p: String| p@) =~= a@.map_values(|p: String| p@));
    r
}

impl Settings {
    /// The default settings.
    pub fn defaults() -> (r: Self)
        ensures
            r@ == default_settings(),
    {
        let patterns: Vec<String> = vec![
            DENY_RM_ROOT.to_owned(),
            DENY_RM_HOME.to_owned(),
            DENY_MKFS.to_owned(),
            DENY_DEV_SD.to_owned(),
            DENY_DD.to_owned(),
        ];
        let r = Settings {
            ollama_url: DEFAULT_URL.to_owned(),
            default_model: DEFAULT_MODEL.to_owned(),
            max_iterations: 25,
            auto_approve_reads: true,
            context_reserve_tokens: 4096,
            bash_timeout_secs: 120,
            bash_deny_patterns: patterns,
        };
        assert(r@.bash_deny_patterns =~= default_settings().bash_deny_patterns);
        r
    }

    /// A copy with the same model.
    pub fn duplicate(&self) -> (r: Self)
        ensures
            r@ == self@,
    {
        Settings {
            ollama_url: self.ollama_url.clone(),
            default_model: self.default_model.clone(),
            max_iterations: self.max_iterations,
            auto_approve_reads: self.auto_approve_reads,
            context_reserve_tokens: self.context_reserve_tokens,
            bash_timeout_secs: self.bash_timeout_secs,
            bash_deny_patterns: copy_strings(&self.bash_deny_patterns),
        }
    }

    /// Merge another settings instance: its non-default values override.
    pub fn merge(&mut self, other: Settings)
        ensures
            final(self)@ == merged(old(self)@, other@),
    {
        let defaults = Settings::defaults();
        if other.ollama_url != defaults.ollama_url {
            self.ollama_url = other.ollama_url;
        }
        if other.default_model != defaults.default_model {
            self.default_model = other.default_model;
        }
        if other.max_iterations != defaults.max_iterations {
            self.max_iterations = other.max_iterations;
        }
        if other.auto_approve_reads != defaults.auto_approve_reads {
            self.auto_approve_reads = other.auto_approve_reads;
        }
        if other.context_reserve_tokens != defaults.context_reserve_tokens {
            self.context_reserve_tokens = other.context_reserve_tokens;
        }
        if other.bash_timeout_secs != defaults.bash_timeout_secs {
            self.bash_timeout_secs = other.bash_timeout_secs;
        }
        if !string_vec_eq(&other.bash_deny_patterns, &defaults.bash_deny_patterns) {
            self.bash_deny_patterns = other.bash_deny_patterns;
        }
    }

    /// Settings with precedence project > global > defaults, from the parsed
    /// global and project configuration files when they exist.
    pub fn layered(global: Option<Settings>, project: Option<Settings>) -> (r: Self)
        ensures
            r@ == ({
                let g = match global {
                    Some(g) => merged(default_settings(), g@),
                    None => default_settings(),
                };
                match project {
                    Some(p) => merged(g, p@),
                    None => g,
                }
            }),
    {
        let mut settings = Settings::defaults();
        match global {
            Some(g) => settings.merge(g),
            None => {},
        }
        match project {
            Some(p) => settings.merge(p),
            None => {},
        }
        settings
    }
}

impl Default for Settings {
    fn default() -> (r: Self)
        ensures
            r@ == default_settings(),
    {
        Settings::defaults()
    }
}

/// Layering over the defaults gives the layer itself.
pub proof fn lemma_merge_onto_defaults(over: SettingsModel)
    ensures
        merged(default_settings(), over) == over,
{
}

/// Layering the defaults over anything changes nothing.
pub proof fn lemma_merge_defaults_identity(base: SettingsModel)
    ensures
        merged(base, default_settings()) == base,
{
}

/// Layering the same settings twice is the same as layering them once.
pub proof fn lemma_merge_idempotent(base: SettingsModel, over: SettingsModel)
    ensures
        merged(merged(base, over), over) == merged(base, over),
{
}

/// Project settings take precedence over global ones, and global ones over
/// the defaults: a field that the project sets differently from the default
/// wins, else one that the global file sets.
pub proof fn lemma_layer_precedence(global: SettingsModel, project: SettingsModel)
    ensures
        ({
            let r = merged(merged(default_settings(), global), project);
            let d = default_settings();
            &&& r.ollama_url == if project.ollama_url != d.ollama_url { project.ollama_url } else { global.ollama_url }
            &&& r.default_model == if project.default_model != d.default_model {
                project.default_model
            } else {
                global.default_model
            }
            &&& r.max_iterations == if project.max_iterations != d.max_iterations {
                project.max_iterations
            } else {
                global.max_iterations
            }
            &&& r.auto_approve_reads == if project.auto_approve_reads != d.auto_approve_reads {
                project.auto_approve_reads
            } else {
                global.auto_approve_reads
            }
            &&& r.context_reserve_tokens == if project.context_reserve_tokens != d.context_reserve_tokens {
                project.context_reserve_tokens
            } else {
                global.context_reserve_tokens
            }
            &&& r.bash_timeout_secs == if project.bash_timeout_secs != d.bash_timeout_secs {
                project.bash_timeout_secs
            } else {
                global.bash_timeout_secs
            }
            &&& r.bash_deny_patterns == if project.bash_deny_patterns != d.bash_deny_patterns {
                project.bash_deny_patterns
            } else {
                global.bash_deny_patterns
            }
        }),
{
    lemma_merge_onto_defaults(global);
}

/// The global configuration file, `enki/config.toml` under the user's
/// configuration directory, when there is one.
pub fn global_config_path(config_dir: Option<&str>) -> (r: Option<String>)
    ensures
        match config_dir {
            Some(d) => r matches Some(p) && p@ == join_path(join_path(d@, "enki"@), "config.toml"@),
            None => r is None,
        },
{
    match config_dir {
        Some(d) => {
            let dir = join(d, "enki");
            Some(join(dir.as_str(), "config.toml"))
        },
        None => None,
    }
}

/// The data directory, `enki` under the user's data directory, when there is one.
pub fn data_dir(base: Option<&str>) -> (r: Option<String>)
    ensures
        match base {
            Some(d) => r matches Some(p) && p@ == join_path(d@, "enki"@),
            None => r is None,
        },
{
    match base {
        Some(d) => Some(join(d, "enki")),
        None => None,
    }
}

/// The project's configuration file, `enki.toml` in the project directory.
pub fn project_config_path(project_dir: &str) -> (r: String)
    ensures
        r@ == join_path(project_dir@, "enki.toml"@),
{
    join(project_dir, "enki.toml")
}

/// Where sessions are saved: the data directory, or `.enki` in the current
/// directory when the user has none.
pub fn save_dir(base: Option<&str>) -> (r: String)
    ensures
        r@ == match base {
            Some(d) => join_path(d@, "enki"@),
            None => ".enki"@,
        },
{
    match data_dir(base) {
        Some(p) => p,
        None => ".enki".to_owned(),
    }
}

} // verus!
