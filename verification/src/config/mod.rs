mod conf;
mod types;

pub use conf::{initial_config, Config, ConfigView};
pub use types::{Grpc, Log, Mysql, MysqlView, Storage, StorageView};

use vstd::prelude::*;
use vstd::string::*;

use crate::util::consts::{
    BASE_CONFIG, CONFIG_DIR, CONFIG_PREFIX, DEFAULT_ENV, ENV_LIST_SEPARATOR, ENV_SEPARATOR,
};

verus! {

/// Read access to the node's configuration.
pub trait IConfig {
    fn grpc(&self) -> Grpc;

    fn log(&self) -> Log;

    fn storage(&self) -> Storage;
}

/// The name of the configuration source of an environment: the file in the
/// configuration directory named after it, without extension.
pub open spec fn env_source_of(env: Seq<char>) -> Seq<char> {
    CONFIG_DIR@ + "/"@ + env
}

/// The YAML file of an environment's configuration.
pub open spec fn env_file_of(env: Seq<char>) -> Seq<char> {
    CONFIG_DIR@ + "/"@ + env + ".yaml"@
}

/// One place that configuration values are read from.
#[derive(Debug)]
pub enum ConfigSource {
    /// A file, named without its extension; loading fails when a required
    /// file is missing.
    File { name: String, required: bool },
    /// The environment variables whose names start with the prefix; nested
    /// keys are split at `separator`, list items at `list_separator`, and
    /// values are parsed as numbers or booleans where they read as such.
    Environment { prefix: String, separator: String, list_separator: String, try_parsing: bool },
}

/// A [`ConfigSource`] as mathematical values.
pub enum ConfigSourceView {
    File { name: Seq<char>, required: bool },
    Environment {
        prefix: Seq<char>,
        separator: Seq<char>,
        list_separator: Seq<char>,
        try_parsing: bool,
    },
}

impl View for ConfigSource {
    type V = ConfigSourceView;

    open spec fn view(&self) -> ConfigSourceView {
        match self {
            ConfigSource::File { name, required } => ConfigSourceView::File {
                name: name@,
                required: *required,
            },
            ConfigSource::Environment { prefix, separator, list_separator, try_parsing } =>
                ConfigSourceView::Environment {
                prefix: prefix@,
                separator: separator@,
                list_separator: list_separator@,
                try_parsing: *try_parsing,
            },
        }
    }
}

/// How the configuration of one environment is loaded.
#[derive(Debug)]
pub struct ConfigPlan {
    /// The environment.
    pub env: String,
    /// Where the initial configuration is written first, when the
    /// environment has no file yet.
    pub write_initial_to: Option<String>,
    /// The sources, in the order they are read; a value read later
    /// overrides the same value read earlier.
    pub sources: Vec<ConfigSource>,
}

/// A [`ConfigPlan`] as mathematical values.
pub struct ConfigPlanView {
    pub env: Seq<char>,
    pub write_initial_to: Option<Seq<char>>,
    pub sources: Seq<ConfigSourceView>,
}

impl View for ConfigPlan {
    type V = ConfigPlanView;

    open spec fn view(&self) -> ConfigPlanView {
        ConfigPlanView {
            env: self.env@,
            write_initial_to: match self.write_initial_to {
                Some(p) => Some(p@),
                None => None,
            },
            sources: self.sources@.map_values(|s: ConfigSource| s@),
        }
    }
}

/// The environment loaded when `named` is the environment named, if any.
pub open spec fn env_of(named: Option<String>) -> Seq<char> {
    match named {
        Some(n) => n@,
        None => DEFAULT_ENV@,
    }
}

/// The source of the overriding environment variables.
pub open spec fn env_vars_source() -> ConfigSourceView {
    ConfigSourceView::Environment {
        prefix: CONFIG_PREFIX@,
        separator: ENV_SEPARATOR@,
        list_separator: ENV_LIST_SEPARATOR@,
        try_parsing: true,
    }
}

/// The sources of an environment, in the order they are read: the base
/// source when it exists (required), then the environment's own file (which
/// may be missing), then the environment variables.
pub open spec fn planned_sources(env: Seq<char>, base_exists: bool) -> Seq<ConfigSourceView> {
    let own = seq![
        ConfigSourceView::File { name: env_source_of(env), required: false },
        env_vars_source(),
    ];
    if base_exists {
        seq![ConfigSourceView::File { name: BASE_CONFIG@, required: true }] + own
    } else {
        own
    }
}

/// The loading steps of an environment, given whether its file and the base
/// source exist.
pub open spec fn planned(env: Seq<char>, env_file_exists: bool, base_exists: bool) -> ConfigPlanView {
    ConfigPlanView {
        env: env,
        write_initial_to: if env_file_exists {
            None
        } else {
            Some(env_file_of(env))
        },
        sources: planned_sources(env, base_exists),
    }
}

/// What a plan for its environment does, in the literal names of the files
/// and variables involved:
/// - it writes the initial configuration to `config/<env>.yaml` exactly when
///   that file does not exist, and otherwise writes nothing;
/// - it reads `config/base` first (required) exactly when that exists, then
///   `config/<env>` (optional), then the `APP` environment variables, which
///   are read last and so override everything else.
pub open spec fn plan_reads(p: ConfigPlan, env_file_exists: bool, base_exists: bool) -> bool {
    let n = p.sources@.len();
    &&& env_file_exists ==> p.write_initial_to is None
    &&& !env_file_exists ==> (p.write_initial_to matches Some(w) && w@ == CONFIG_DIR@ + "/"@
        + p.env@ + ".yaml"@)
    &&& n == if base_exists {
        3int
    } else {
        2int
    }
    &&& base_exists ==> p.sources@[0]@ == (ConfigSourceView::File {
        name: BASE_CONFIG@,
        required: true,
    })
    &&& p.sources@[n - 2]@ == (ConfigSourceView::File {
        name: CONFIG_DIR@ + "/"@ + p.env@,
        required: false,
    })
    &&& p.sources@[n - 1]@ == (ConfigSourceView::Environment {
        prefix: CONFIG_PREFIX@,
        separator: ENV_SEPARATOR@,
        list_separator: ENV_LIST_SEPARATOR@,
        try_parsing: true,
    })
}

/// Loads the node's configuration.
pub struct ConfigProvider;

impl ConfigProvider {
    /// The environment to load: the one named, else `dev`.
    pub fn env_name(named: Option<String>) -> (env: String)
        ensures
            named matches Some(n) ==> env@ == n@,
            named is None ==> env@ == DEFAULT_ENV@,
    {
        match named {
            Some(n) => n,
            None => String::from_str(DEFAULT_ENV),
        }
    }

    /// The YAML file of an environment's configuration.
    pub fn env_file(env: &str) -> (path: String)
        ensures
            path@ == env_file_of(env@),
            path@ == CONFIG_DIR@ + "/"@ + env@ + ".yaml"@,
    {
        String::from_str(CONFIG_DIR).concat("/").concat(env).concat(".yaml")
    }

    /// The name of an environment's configuration source.
    pub fn env_source(env: &str) -> (name: String)
        ensures
            name@ == env_source_of(env@),
            name@ == CONFIG_DIR@ + "/"@ + env@,
    {
        String::from_str(CONFIG_DIR).concat("/").concat(env)
    }

    /// The source of the overriding environment variables.
    fn env_vars_source() -> (s: ConfigSource)
        ensures
            s@ == env_vars_source(),
    {
        ConfigSource::Environment {
            prefix: String::from_str(CONFIG_PREFIX),
            separator: String::from_str(ENV_SEPARATOR),
            list_separator: String::from_str(ENV_LIST_SEPARATOR),
            try_parsing: true,
        }
    }

    /// The loading steps of an environment, given whether its file and the
    /// base source exist.
    pub fn plan(env: String, env_file_exists: bool, base_exists: bool) -> (p: ConfigPlan)
        ensures
            p@ == planned(env@, env_file_exists, base_exists),
            p.env@ == env@,
            plan_reads(p, env_file_exists, base_exists),
    {
        let write_initial_to = if env_file_exists {
            None
        } else {
            Some(Self::env_file(env.as_str()))
        };
        let mut sources: Vec<ConfigSource> = Vec::new();
        if base_exists {
            sources.push(ConfigSource::File { name: String::from_str(BASE_CONFIG), required: true });
        }
        sources.push(ConfigSource::File { name: Self::env_source(env.as_str()), required: false });
        sources.push(Self::env_vars_source());
        let p = ConfigPlan { env, write_initial_to, sources };
        assert(p@.sources =~= planned_sources(p.env@, base_exists));
        assert(p.sources@[p.sources@.len() - 2]@ == p@.sources[p.sources@.len() - 2]);
        assert(p.sources@[p.sources@.len() - 1]@ == p@.sources[p.sources@.len() - 1]);
        assert(p.sources@[0]@ == p@.sources[0]);
        p
    }
}

impl ConfigProvider {
    /// The loading steps of the environment named, if any, else of `dev`,
    /// given whether that environment's file and the base source exist.
    pub fn invoke(named: Option<String>, env_file_exists: bool, base_exists: bool) -> (p: ConfigPlan)
        ensures
            p@ == planned(env_of(named), env_file_exists, base_exists),
            named matches Some(n) ==> p.env@ == n@,
            named is None ==> p.env@ == DEFAULT_ENV@,
            plan_reads(p, env_file_exists, base_exists),
    {
        let env = Self::env_name(named);
        Self::plan(env, env_file_exists, base_exists)
    }
}

/// Naming no environment loads exactly what naming `dev` loads.
pub proof fn lemma_unnamed_env_is_default(dev: String, env_file_exists: bool, base_exists: bool)
    requires
        dev@ == DEFAULT_ENV@,
    ensures
        planned(env_of(None), env_file_exists, base_exists) == planned(
            env_of(Some(dev)),
            env_file_exists,
            base_exists,
        ),
{
}

/// The names of an environment's file and source are the configuration
/// directory, a slash and the whole environment name (and `.yaml` for the
/// file); different environments never share a file or a source.
pub proof fn lemma_env_names(e1: Seq<char>, e2: Seq<char>)
    ensures
        env_source_of(e1) == CONFIG_DIR@ + "/"@ + e1,
        env_file_of(e1) == CONFIG_DIR@ + "/"@ + e1 + ".yaml"@,
        env_source_of(e1).subrange(CONFIG_DIR@.len() + 1int, env_source_of(e1).len() as int) == e1,
        e1 != e2 ==> env_source_of(e1) != env_source_of(e2),
        e1 != e2 ==> env_file_of(e1) != env_file_of(e2),
{
    reveal_strlit("/");
    let d = CONFIG_DIR@ + "/"@;
    assert(d.len() == CONFIG_DIR@.len() + 1);
    assert(env_source_of(e1) =~= d + e1);
    assert(env_source_of(e2) =~= d + e2);
    assert((d + e1).subrange(d.len() as int, (d + e1).len() as int) =~= e1);
    assert((d + e2).subrange(d.len() as int, (d + e2).len() as int) =~= e2);
    assert(env_file_of(e1) =~= d + e1 + ".yaml"@);
    assert(env_file_of(e2) =~= d + e2 + ".yaml"@);
    if e1 != e2 && env_file_of(e1) == env_file_of(e2) {
        let y = ".yaml"@;
        assert((d + e1 + y).subrange(d.len() as int, (d + e1 + y).len() - y.len()) =~= e1);
        assert((d + e2 + y).subrange(d.len() as int, (d + e2 + y).len() - y.len()) =~= e2);
    }
}

/// A named environment is the one loaded, whatever the flags: its plan is
/// the plan of that name, and the name decides the file read.
pub proof fn lemma_named_env_is_loaded(n: String, env_file_exists: bool, base_exists: bool)
    ensures
        env_of(Some(n)) == n@,
        env_of(None::<String>) == DEFAULT_ENV@,
        planned(env_of(Some(n)), env_file_exists, base_exists).env == n@,
        planned(env_of(Some(n)), env_file_exists, base_exists) == planned(
            n@,
            env_file_exists,
            base_exists,
        ),
{
}

/// For every environment and flags, the plan reads exactly these sources in
/// this order: `config/base` (required) when it exists, then `config/<env>`
/// (optional), then the `APP` variables; the variables come last and nowhere
/// else, and every file read is `config/base` or `config/<env>`.
pub proof fn lemma_plan_sources(env: Seq<char>, env_file_exists: bool, base_exists: bool)
    ensures
        ({
            let s = planned(env, env_file_exists, base_exists).sources;
            let vars = ConfigSourceView::Environment {
                prefix: CONFIG_PREFIX@,
                separator: ENV_SEPARATOR@,
                list_separator: ENV_LIST_SEPARATOR@,
                try_parsing: true,
            };
            &&& s.len() == if base_exists {
                3int
            } else {
                2int
            }
            &&& s.contains(ConfigSourceView::File { name: CONFIG_DIR@ + "/"@ + env, required: false })
            &&& s[s.len() - 1] == vars
            &&& forall|i: int| 0 <= i < s.len() - 1 ==> s[i] != vars
            &&& forall|i: int|
                0 <= i < s.len() ==> (#[trigger] s[i] matches ConfigSourceView::File { name, required }
                    ==> ((name == CONFIG_DIR@ + "/"@ + env && !required) || (base_exists && name
                    == BASE_CONFIG@ && required)))
            &&& (s[0] == ConfigSourceView::File { name: BASE_CONFIG@, required: true }) <==> base_exists
        }),
{
    let s = planned(env, env_file_exists, base_exists).sources;
    let own = ConfigSourceView::File { name: CONFIG_DIR@ + "/"@ + env, required: false };
    assert(env_source_of(env) == CONFIG_DIR@ + "/"@ + env);
    if base_exists {
        assert(s =~= seq![
            ConfigSourceView::File { name: BASE_CONFIG@, required: true },
            own,
            env_vars_source(),
        ]);
        assert(s[1] == own);
    } else {
        assert(s =~= seq![own, env_vars_source()]);
        assert(s[0] == own);
    }
}

/// The initial configuration is written to `config/<env>.yaml` exactly when
/// that file does not exist, whether or not `config/base` exists; an existing
/// file is never written.
pub proof fn lemma_plan_initial_file(env: Seq<char>, env_file_exists: bool, base_exists: bool)
    ensures
        env_file_exists ==> planned(env, env_file_exists, base_exists).write_initial_to is None,
        !env_file_exists ==> planned(env, env_file_exists, base_exists).write_initial_to == Some(
            CONFIG_DIR@ + "/"@ + env + ".yaml"@,
        ),
{
}

/// The file that receives the initial configuration of an environment is the
/// environment's own source, with the YAML extension.
pub proof fn lemma_initial_file_is_env_source(env: Seq<char>)
    ensures
        env_file_of(env) == env_source_of(env) + ".yaml"@,
{
    assert(env_file_of(env) =~= env_source_of(env) + ".yaml"@);
}

} // verus!
