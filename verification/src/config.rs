//! The application configuration and the rule that builds it: each setting
//! is taken from the environment where the environment may set it, else from
//! the configuration file, else from the built-in default.
//!
//! Reading the environment and the file is left to the caller, which hands
//! over what it read as plain values (`Environment`, `FileConfig`).

use vstd::prelude::*;

use crate::observability::{
    str_or, val_or, CortexConfig, EmbeddingsConfig, FileCortexConfig, FileEmbeddingsConfig, FileLogging,
    FileOtelConfig, FileTranslation, LoggingConfig, OtelConfig, Translation,
};
use crate::routing::{ClientConfig, ClientsConfig, ProviderConfig};
use crate::settings::{Augmentation, FileAugmentation, FileFeatures, FileTransformers, Features, Transformers};
use crate::strmap::StrMap;
use crate::text::{lowercase_of, owned, parse_u64, str_eq, to_lowercase, u64_text};

verus! {

/// Default proxy bind address.
pub const DEFAULT_BIND_ADDR: &'static str = "127.0.0.1:8080";

/// Default upstream API URL.
pub const DEFAULT_API_URL: &'static str = "https://api.anthropic.com";

/// Default log directory.
pub const DEFAULT_LOG_DIR: &'static str = "./logs";

/// Default context window limit shown by the gauge.
pub const DEFAULT_CONTEXT_LIMIT: u64 = 150_000;

/// Default theme.
pub const DEFAULT_THEME: &'static str = "Spy Dark";

/// Default layout preset.
pub const DEFAULT_PRESET: &'static str = "classic";

/// Application configuration.
pub struct Config {
    /// Address the proxy binds to, as written (`host:port`).
    pub bind_addr: String,
    /// Upstream API URL.
    pub api_url: String,
    /// Directory for session logs.
    pub log_dir: String,
    /// Whether the TUI runs (off for headless mode).
    pub enable_tui: bool,
    /// Demo mode: synthetic events for showcasing the TUI.
    pub demo_mode: bool,
    /// Context window limit for the gauge.
    pub context_limit: u64,
    /// Theme name.
    pub theme: String,
    /// Whether the theme's background colour is used.
    pub use_theme_background: bool,
    /// Layout preset name.
    pub preset: String,
    pub features: Features,
    pub augmentation: Augmentation,
    pub logging: LoggingConfig,
    pub cortex: CortexConfig,
    pub embeddings: EmbeddingsConfig,
    pub translation: Translation,
    pub transformers: Transformers,
    pub otel: OtelConfig,
    /// Clients and providers for multi-user routing.
    pub clients: ClientsConfig,
}

/// What the configuration file holds (every setting optional).
pub struct FileConfig {
    pub context_limit: Option<u64>,
    pub bind_addr: Option<String>,
    pub api_url: Option<String>,
    pub log_dir: Option<String>,
    pub theme: Option<String>,
    pub use_theme_background: Option<bool>,
    pub preset: Option<String>,
    pub features: Option<FileFeatures>,
    pub augmentation: Option<FileAugmentation>,
    pub logging: Option<FileLogging>,
    pub cortex: Option<FileCortexConfig>,
    pub embeddings: Option<FileEmbeddingsConfig>,
    pub translation: Option<FileTranslation>,
    pub transformers: Option<FileTransformers>,
    pub otel: Option<FileOtelConfig>,
    /// `[clients.X]` sections.
    pub clients: StrMap<ClientConfig>,
    /// `[providers.X]` sections.
    pub providers: StrMap<ProviderConfig>,
}

impl Default for FileConfig {
    fn default() -> (r: Self)
        ensures
            r.is_empty(),
    {
        FileConfig {
            context_limit: None,
            bind_addr: None,
            api_url: None,
            log_dir: None,
            theme: None,
            use_theme_background: None,
            preset: None,
            features: None,
            augmentation: None,
            logging: None,
            cortex: None,
            embeddings: None,
            translation: None,
            transformers: None,
            otel: None,
            clients: StrMap::new(),
            providers: StrMap::new(),
        }
    }
}

impl FileConfig {
    /// A file that sets nothing.
    pub open spec fn is_empty(&self) -> bool {
        &&& self.context_limit is None
        &&& self.bind_addr is None
        &&& self.api_url is None
        &&& self.log_dir is None
        &&& self.theme is None
        &&& self.use_theme_background is None
        &&& self.preset is None
        &&& self.features is None
        &&& self.augmentation is None
        &&& self.logging is None
        &&& self.cortex is None
        &&& self.embeddings is None
        &&& self.translation is None
        &&& self.transformers is None
        &&& self.otel is None
        &&& self.clients@ == Map::<Seq<char>, ClientConfig>::empty()
        &&& self.providers@ == Map::<Seq<char>, ProviderConfig>::empty()
    }
}

/// The environment variables that the configuration reads, each as read
/// (`None` when unset).
pub struct Environment {
    /// `ASPY_BIND`
    pub bind: Option<String>,
    /// `ANTHROPIC_API_URL`
    pub api_url: Option<String>,
    /// `ASPY_LOG_DIR`
    pub log_dir: Option<String>,
    /// `ASPY_NO_TUI`
    pub no_tui: Option<String>,
    /// `ASPY_DEMO`
    pub demo: Option<String>,
    /// `ASPY_CONTEXT_LIMIT`
    pub context_limit: Option<String>,
    /// `ASPY_THEME`
    pub theme: Option<String>,
    /// `ASPY_EMBEDDINGS_API_KEY`
    pub embeddings_api_key: Option<String>,
    /// `APPLICATIONINSIGHTS_CONNECTION_STRING`
    pub otel_connection_string: Option<String>,
}

impl Default for Environment {
    fn default() -> (r: Self)
        ensures
            r.is_empty(),
    {
        Environment {
            bind: None,
            api_url: None,
            log_dir: None,
            no_tui: None,
            demo: None,
            context_limit: None,
            theme: None,
            embeddings_api_key: None,
            otel_connection_string: None,
        }
    }
}

impl Environment {
    /// No variable set.
    pub open spec fn is_empty(&self) -> bool {
        &&& self.bind is None
        &&& self.api_url is None
        &&& self.log_dir is None
        &&& self.no_tui is None
        &&& self.demo is None
        &&& self.context_limit is None
        &&& self.theme is None
        &&& self.embeddings_api_key is None
        &&& self.otel_connection_string is None
    }
}

/// A string setting with precedence: the environment's value, else the
/// file's, else the default.
pub open spec fn str_from(env: Option<String>, file: Option<String>, d: Seq<char>) -> Seq<char> {
    match env {
        Some(v) => v@,
        None => str_or(file, d),
    }
}

/// Whether a flag's value switches it on: `1`, or `true` in any case.
pub open spec fn flag_on(v: Seq<char>) -> bool {
    v == "1"@ || lowercase_of(v) == "true"@
}

/// The context limit: the environment's value when it is a valid `u64`,
/// else the file's, else the default.
pub open spec fn context_limit_from(env: Option<String>, file: Option<u64>) -> u64 {
    match env {
        Some(v) => match u64_text(v@) {
            Some(n) => n,
            None => val_or(file, DEFAULT_CONTEXT_LIMIT),
        },
        None => val_or(file, DEFAULT_CONTEXT_LIMIT),
    }
}

impl Config {
    /// Whether `c` is the configuration built from `file` and `env`: the
    /// environment first where it may set a setting, then the file, then the
    /// default.
    pub open spec fn loaded(c: Self, file: FileConfig, env: Environment) -> bool {
        &&& c.bind_addr@ == str_from(env.bind, file.bind_addr, DEFAULT_BIND_ADDR@)
        &&& c.api_url@ == str_from(env.api_url, file.api_url, DEFAULT_API_URL@)
        &&& c.log_dir@ == str_from(env.log_dir, file.log_dir, DEFAULT_LOG_DIR@)
        &&& c.enable_tui == match env.no_tui {
            Some(v) => !flag_on(v@),
            None => true,
        }
        &&& c.demo_mode == match env.demo {
            Some(v) => flag_on(v@),
            None => false,
        }
        &&& c.context_limit == context_limit_from(env.context_limit, file.context_limit)
        &&& c.theme@ == str_from(env.theme, file.theme, DEFAULT_THEME@)
        &&& c.use_theme_background == val_or(file.use_theme_background, true)
        &&& c.preset@ == str_or(file.preset, DEFAULT_PRESET@)
        &&& Features::loaded(c.features, file.features)
        &&& Augmentation::loaded(c.augmentation, file.augmentation)
        &&& LoggingConfig::loaded(c.logging, file.logging)
        &&& CortexConfig::loaded(c.cortex, file.cortex)
        &&& EmbeddingsConfig::loaded(c.embeddings, file.embeddings, env.embeddings_api_key)
        &&& Translation::loaded(c.translation, file.translation)
        &&& Transformers::loaded(c.transformers, file.transformers)
        &&& OtelConfig::loaded(c.otel, file.otel, env.otel_connection_string)
        &&& c.clients.clients@ == file.clients@
        &&& c.clients.providers@ == file.providers@
    }

    /// Whether every setting of `c` is its built-in default.
    pub open spec fn is_default(c: Self) -> bool {
        &&& c.bind_addr@ == DEFAULT_BIND_ADDR@
        &&& c.api_url@ == DEFAULT_API_URL@
        &&& c.log_dir@ == DEFAULT_LOG_DIR@
        &&& c.enable_tui
        &&& !c.demo_mode
        &&& c.context_limit == DEFAULT_CONTEXT_LIMIT
        &&& c.theme@ == DEFAULT_THEME@
        &&& c.use_theme_background
        &&& c.preset@ == DEFAULT_PRESET@
        &&& Features::loaded(c.features, None)
        &&& Augmentation::loaded(c.augmentation, None)
        &&& LoggingConfig::loaded(c.logging, None)
        &&& CortexConfig::loaded(c.cortex, None)
        &&& EmbeddingsConfig::loaded(c.embeddings, None, None)
        &&& Translation::loaded(c.translation, None)
        &&& Transformers::loaded(c.transformers, None)
        &&& OtelConfig::loaded(c.otel, None, None)
        &&& c.clients.clients@ == Map::<Seq<char>, ClientConfig>::empty()
        &&& c.clients.providers@ == Map::<Seq<char>, ProviderConfig>::empty()
    }

    /// Builds the configuration from what the file and the environment hold.
    pub fn from_env(file: FileConfig, env: Environment) -> (c: Self)
        ensures
            Self::loaded(c, file, env),
    {
        let bind_addr = pick_str(env.bind, file.bind_addr, DEFAULT_BIND_ADDR);
        let api_url = pick_str(env.api_url, file.api_url, DEFAULT_API_URL);
        let log_dir = pick_str(env.log_dir, file.log_dir, DEFAULT_LOG_DIR);
        let enable_tui = match &env.no_tui {
            Some(v) => !flag_value(v.as_str()),
            None => true,
        };
        let demo_mode = match &env.demo {
            Some(v) => flag_value(v.as_str()),
            None => false,
        };
        let env_limit = match &env.context_limit {
            Some(v) => parse_u64(v.as_str()),
            None => None,
        };
        let context_limit = match env_limit {
            Some(n) => n,
            None => match file.context_limit {
                Some(n) => n,
                None => DEFAULT_CONTEXT_LIMIT,
            },
        };
        let theme = pick_str(env.theme, file.theme, DEFAULT_THEME);
        let use_theme_background = match file.use_theme_background {
            Some(b) => b,
            None => true,
        };
        let preset = match file.preset {
            Some(p) => p,
            None => owned(DEFAULT_PRESET),
        };
        let features = Features::from_file(file.features);
        let augmentation = Augmentation::from_file(file.augmentation);
        let logging = LoggingConfig::from_file(file.logging);
        let cortex = CortexConfig::from_file(file.cortex);
        let transformers = Transformers::from_file(file.transformers);
        let translation = Translation::from_file(file.translation);
        let embeddings = EmbeddingsConfig::from_file(file.embeddings, env.embeddings_api_key);
        let otel = OtelConfig::from_file(file.otel, env.otel_connection_string);
        let clients = ClientsConfig { clients: file.clients, providers: file.providers };
        Config {
            bind_addr,
            api_url,
            log_dir,
            enable_tui,
            demo_mode,
            context_limit,
            theme,
            use_theme_background,
            preset,
            features,
            augmentation,
            logging,
            cortex,
            embeddings,
            translation,
            transformers,
            otel,
            clients,
        }
    }
}

impl Default for Config {
    fn default() -> (c: Self)
        ensures
            Config::is_default(c),
    {
        Config {
            bind_addr: owned(DEFAULT_BIND_ADDR),
            api_url: owned(DEFAULT_API_URL),
            log_dir: owned(DEFAULT_LOG_DIR),
            enable_tui: true,
            demo_mode: false,
            context_limit: DEFAULT_CONTEXT_LIMIT,
            theme: owned(DEFAULT_THEME),
            use_theme_background: true,
            preset: owned(DEFAULT_PRESET),
            features: Features::from_file(None),
            augmentation: Augmentation::from_file(None),
            logging: LoggingConfig::from_file(None),
            cortex: CortexConfig::from_file(None),
            embeddings: EmbeddingsConfig::from_file(None, None),
            translation: Translation::from_file(None),
            transformers: Transformers::from_file(None),
            otel: OtelConfig::from_file(None, None),
            clients: ClientsConfig::new(),
        }
    }
}

/// With nothing in the file and nothing in the environment, every setting
/// is its default.
pub proof fn lemma_empty_sources_give_defaults(c: Config, file: FileConfig, env: Environment)
    requires
        file.is_empty(),
        env.is_empty(),
        Config::loaded(c, file, env),
    ensures
        Config::is_default(c),
{
}

/// A setting that the environment sets takes the environment's value,
/// whatever the file holds.
pub proof fn lemma_environment_wins(c: Config, file: FileConfig, env: Environment)
    requires
        Config::loaded(c, file, env),
    ensures
        env.bind matches Some(v) ==> c.bind_addr@ == v@,
        env.api_url matches Some(v) ==> c.api_url@ == v@,
        env.log_dir matches Some(v) ==> c.log_dir@ == v@,
        env.theme matches Some(v) ==> c.theme@ == v@,
        env.context_limit matches Some(v) ==> (u64_text(v@) is Some ==> c.context_limit == u64_text(v@)->0),
{
}

/// Precedence for a string setting: environment, then file, then default.
fn pick_str(env: Option<String>, file: Option<String>, d: &str) -> (r: String)
    ensures
        r@ == str_from(env, file, d@),
{
    match env {
        Some(v) => v,
        None => match file {
            Some(v) => v,
            None => owned(d),
        },
    }
}

/// Whether a flag's value switches it on (`1`, or `true` in any case).
pub fn flag_value(v: &str) -> (r: bool)
    ensures
        r == flag_on(v@),
{
    if str_eq(v, "1") {
        return true;
    }
    let lower = to_lowercase(v);
    str_eq(lower.as_str(), "true")
}

} // verus!
