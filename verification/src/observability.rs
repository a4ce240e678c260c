//! Observability settings: logging, cortex storage, embeddings,
//! OpenTelemetry export and API translation, each with its file form and
//! the rule that fills what the file leaves out with defaults.

use vstd::prelude::*;

use crate::strmap::StrMap;
use crate::text::{all_ascii, ascii_lower, ascii_lowercase_letters, lowercase_of, opt_view, owned, str_eq, to_lowercase};

verus! {

/// Version of this library, used as the default telemetry service version.
pub const VERSION: &'static str = "0.1.0";

/// A string setting: the file's value when given, else the default.
pub open spec fn str_or(o: Option<String>, d: Seq<char>) -> Seq<char> {
    match o {
        Some(s) => s@,
        None => d,
    }
}

/// A plain setting: the file's value when given, else the default.
pub open spec fn val_or<T>(o: Option<T>, d: T) -> T {
    match o {
        Some(v) => v,
        None => d,
    }
}

fn take_str_or(o: Option<String>, d: &str) -> (r: String)
    ensures
        r@ == str_or(o, d@),
{
    match o {
        Some(s) => s,
        None => owned(d),
    }
}

// ─────────────────────────────────────────────────────────────────────────────
// Log rotation
// ─────────────────────────────────────────────────────────────────────────────

/// Log file rotation strategy.
#[derive(Debug, Clone, Copy, PartialEq, Eq, Structural)]
pub enum LogRotation {
    /// Rotate hourly.
    Hourly,
    /// Rotate daily (the default).
    Daily,
    /// A single file.
    Never,
}

impl Default for LogRotation {
    fn default() -> (r: Self)
        ensures
            r == LogRotation::Daily,
    {
        LogRotation::Daily
    }
}

/// The rotation that a lower-cased name selects; unknown names select daily.
pub open spec fn rotation_named(l: Seq<char>) -> LogRotation {
    if l == "hourly"@ {
        LogRotation::Hourly
    } else if l == "never"@ {
        LogRotation::Never
    } else {
        LogRotation::Daily
    }
}

/// The configuration-file spelling of a rotation.
pub open spec fn rotation_name(r: LogRotation) -> Seq<char> {
    match r {
        LogRotation::Hourly => "hourly"@,
        LogRotation::Daily => "daily"@,
        LogRotation::Never => "never"@,
    }
}

impl LogRotation {
    /// Parses a rotation name case-insensitively; unknown names give daily.
    pub fn from_str(s: &str) -> (r: Self)
        ensures
            r == rotation_named(lowercase_of(s@)),
            all_ascii(s@) ==> r == rotation_named(ascii_lower(s@)),
            forall|x: LogRotation| s@ == #[trigger] rotation_name(x) ==> r == x,
    {
        let lower = to_lowercase(s);
        proof {
            reveal_strlit("hourly");
            reveal_strlit("never");
            reveal_strlit("daily");
            assert(ascii_lowercase_letters("hourly"@));
            assert(ascii_lowercase_letters("daily"@));
            assert(ascii_lowercase_letters("never"@));
            assert("daily"@.len() == 5);
            assert("hourly"@.len() == 6);
            assert("daily"@[0] != "never"@[0]);
        }
        if str_eq(lower.as_str(), "hourly") {
            LogRotation::Hourly
        } else if str_eq(lower.as_str(), "daily") {
            LogRotation::Daily
        } else if str_eq(lower.as_str(), "never") {
            LogRotation::Never
        } else {
            LogRotation::Daily
        }
    }

    /// The configuration-file spelling of this rotation.
    pub fn as_str(&self) -> (r: &'static str)
        ensures
            r@ == rotation_name(*self),
    {
        match self {
            LogRotation::Hourly => "hourly",
            LogRotation::Daily => "daily",
            LogRotation::Never => "never",
        }
    }
}

// ─────────────────────────────────────────────────────────────────────────────
// Logging
// ─────────────────────────────────────────────────────────────────────────────

/// Logging configuration.
#[derive(Debug, Clone)]
pub struct LoggingConfig {
    /// Log level.
    pub level: String,
    /// Whether logs are also written to files.
    pub file_enabled: bool,
    /// Directory of the log files.
    pub file_dir: String,
    /// Rotation of the log files.
    pub file_rotation: LogRotation,
    /// Prefix of the log file names.
    pub file_prefix: String,
}

impl Default for LoggingConfig {
    fn default() -> (r: Self)
        ensures
            r.level@ == "info"@,
            !r.file_enabled,
            r.file_dir@ == "./logs/trace"@,
            r.file_rotation == LogRotation::Daily,
            r.file_prefix@ == "aspy"@,
    {
        LoggingConfig {
            level: owned("info"),
            file_enabled: false,
            file_dir: owned("./logs/trace"),
            file_rotation: LogRotation::Daily,
            file_prefix: owned("aspy"),
        }
    }
}

/// Logging settings as read from the configuration file.
#[derive(Debug, Clone)]
pub struct FileLogging {
    pub level: Option<String>,
    pub file_enabled: Option<bool>,
    pub file_dir: Option<String>,
    pub file_rotation: Option<String>,
    pub file_prefix: Option<String>,
}

impl Default for FileLogging {
    fn default() -> (r: Self)
        ensures
            r.level is None,
            r.file_enabled is None,
            r.file_dir is None,
            r.file_rotation is None,
            r.file_prefix is None,
    {
        FileLogging { level: None, file_enabled: None, file_dir: None, file_rotation: None, file_prefix: None }
    }
}

/// The file section that is read: the given one, or an empty one.
pub open spec fn logging_section(f: Option<FileLogging>) -> FileLogging {
    match f {
        Some(x) => x,
        None => FileLogging { level: None, file_enabled: None, file_dir: None, file_rotation: None, file_prefix: None },
    }
}

impl LoggingConfig {
    /// Whether `r` holds, for each setting, the file's value where it
    /// gives one and otherwise the default (an override first, where taken).
    pub open spec fn loaded(r: Self, file: Option<FileLogging>) -> bool {
        &&& r.level@ == str_or(logging_section(file).level, "info"@)
        &&& r.file_enabled == val_or(logging_section(file).file_enabled, false)
        &&& r.file_dir@ == str_or(logging_section(file).file_dir, "./logs/trace"@)
        &&& r.file_rotation == match logging_section(file).file_rotation {
            Some(s) => rotation_named(lowercase_of(s@)),
            None => LogRotation::Daily
        }
        &&& r.file_prefix@ == str_or(logging_section(file).file_prefix, "aspy"@)
    }

    /// Each setting from the file where it is given, else its default.
    pub fn from_file(file: Option<FileLogging>) -> (r: Self)
        ensures
            Self::loaded(r, file),
    {
        let file = match file {
            Some(f) => f,
            None => FileLogging::default(),
        };
        let rotation = match &file.file_rotation {
            Some(s) => LogRotation::from_str(s.as_str()),
            None => LogRotation::Daily,
        };
        LoggingConfig {
            level: take_str_or(file.level, "info"),
            file_enabled: match file.file_enabled {
                Some(b) => b,
                None => false,
            },
            file_dir: take_str_or(file.file_dir, "./logs/trace"),
            file_rotation: rotation,
            file_prefix: take_str_or(file.file_prefix, "aspy"),
        }
    }
}

// ─────────────────────────────────────────────────────────────────────────────
// Cortex storage
// ─────────────────────────────────────────────────────────────────────────────

/// Cortex (SQLite session memory) configuration.
#[derive(Debug, Clone)]
pub struct CortexConfig {
    pub enabled: bool,
    pub db_path: String,
    pub store_thinking: bool,
    pub store_tool_io: bool,
    pub max_thinking_size: usize,
    pub retention_days: u32,
    pub channel_buffer: usize,
    pub batch_size: usize,
    pub flush_interval_secs: u64,
}

impl Default for CortexConfig {
    fn default() -> (r: Self)
        ensures
            !r.enabled,
            r.db_path@ == "./data/cortex.db"@,
            r.store_thinking,
            r.store_tool_io,
            r.max_thinking_size == 100_000,
            r.retention_days == 90,
            r.channel_buffer == 10_000,
            r.batch_size == 100,
            r.flush_interval_secs == 1,
    {
        CortexConfig {
            enabled: false,
            db_path: owned("./data/cortex.db"),
            store_thinking: true,
            store_tool_io: true,
            max_thinking_size: 100_000,
            retention_days: 90,
            channel_buffer: 10_000,
            batch_size: 100,
            flush_interval_secs: 1,
        }
    }
}

/// Cortex settings as read from the configuration file.
#[derive(Debug, Clone)]
pub struct FileCortexConfig {
    pub enabled: Option<bool>,
    pub db_path: Option<String>,
    pub store_thinking: Option<bool>,
    pub store_tool_io: Option<bool>,
    pub max_thinking_size: Option<usize>,
    pub retention_days: Option<u32>,
    pub channel_buffer: Option<usize>,
    pub batch_size: Option<usize>,
    pub flush_interval_secs: Option<u64>,
}

impl Default for FileCortexConfig {
    fn default() -> (r: Self)
        ensures
            r == cortex_section(None),
    {
        FileCortexConfig {
            enabled: None,
            db_path: None,
            store_thinking: None,
            store_tool_io: None,
            max_thinking_size: None,
            retention_days: None,
            channel_buffer: None,
            batch_size: None,
            flush_interval_secs: None,
        }
    }
}

/// The file section that is read: the given one, or an empty one.
pub open spec fn cortex_section(f: Option<FileCortexConfig>) -> FileCortexConfig {
    match f {
        Some(x) => x,
        None => FileCortexConfig {
            enabled: None,
            db_path: None,
            store_thinking: None,
            store_tool_io: None,
            max_thinking_size: None,
            retention_days: None,
            channel_buffer: None,
            batch_size: None,
            flush_interval_secs: None,
        },
    }
}

impl CortexConfig {
    /// Whether `r` holds, for each setting, the file's value where it
    /// gives one and otherwise the default (an override first, where taken).
    pub open spec fn loaded(r: Self, file: Option<FileCortexConfig>) -> bool {
        &&& r.enabled == val_or(cortex_section(file).enabled, false)
        &&& r.db_path@ == str_or(cortex_section(file).db_path, "./data/cortex.db"@)
        &&& r.store_thinking == val_or(cortex_section(file).store_thinking, true)
        &&& r.store_tool_io == val_or(cortex_section(file).store_tool_io, true)
        &&& r.max_thinking_size == val_or(cortex_section(file).max_thinking_size, 100_000usize)
        &&& r.retention_days == val_or(cortex_section(file).retention_days, 90u32)
        &&& r.channel_buffer == val_or(cortex_section(file).channel_buffer, 10_000usize)
        &&& r.batch_size == val_or(cortex_section(file).batch_size, 100usize)
        &&& r.flush_interval_secs == val_or(cortex_section(file).flush_interval_secs, 1u64)
    }

    /// Each setting from the file where it is given, else its default.
    pub fn from_file(file: Option<FileCortexConfig>) -> (r: Self)
        ensures
            Self::loaded(r, file),
    {
        let file = match file {
            Some(f) => f,
            None => FileCortexConfig::default(),
        };
        let d = CortexConfig::default();
        CortexConfig {
            enabled: match file.enabled {
                Some(v) => v,
                None => d.enabled,
            },
            db_path: match file.db_path {
                Some(v) => v,
                None => d.db_path,
            },
            store_thinking: match file.store_thinking {
                Some(v) => v,
                None => d.store_thinking,
            },
            store_tool_io: match file.store_tool_io {
                Some(v) => v,
                None => d.store_tool_io,
            },
            max_thinking_size: match file.max_thinking_size {
                Some(v) => v,
                None => d.max_thinking_size,
            },
            retention_days: match file.retention_days {
                Some(v) => v,
                None => d.retention_days,
            },
            channel_buffer: match file.channel_buffer {
                Some(v) => v,
                None => d.channel_buffer,
            },
            batch_size: match file.batch_size {
                Some(v) => v,
                None => d.batch_size,
            },
            flush_interval_secs: match file.flush_interval_secs {
                Some(v) => v,
                None => d.flush_interval_secs,
            },
        }
    }
}

// ─────────────────────────────────────────────────────────────────────────────
// Embeddings
// ─────────────────────────────────────────────────────────────────────────────

/// Embeddings configuration for semantic search.
#[derive(Debug, Clone)]
pub struct EmbeddingsConfig {
    /// "none", "local" or "remote".
    pub provider: String,
    pub model: String,
    pub api_base: Option<String>,
    pub api_version: Option<String>,
    /// "bearer" or "api-key".
    pub auth_method: String,
    pub api_key: Option<String>,
    pub poll_interval_secs: u64,
    pub batch_size: usize,
    pub batch_delay_ms: u64,
    pub max_content_length: usize,
}

impl Default for EmbeddingsConfig {
    fn default() -> (r: Self)
        ensures
            r.provider@ == "none"@,
            r.model@ == Seq::<char>::empty(),
            r.api_base is None,
            r.api_version is None,
            r.auth_method@ == "bearer"@,
            r.api_key is None,
            r.poll_interval_secs == 30,
            r.batch_size == 32,
            r.batch_delay_ms == 100,
            r.max_content_length == 8000,
    {
        EmbeddingsConfig {
            provider: owned("none"),
            model: String::new(),
            api_base: None,
            api_version: None,
            auth_method: owned("bearer"),
            api_key: None,
            poll_interval_secs: 30,
            batch_size: 32,
            batch_delay_ms: 100,
            max_content_length: 8000,
        }
    }
}

/// Embeddings settings as read from the configuration file.
#[derive(Debug, Clone)]
pub struct FileEmbeddingsConfig {
    pub provider: Option<String>,
    pub model: Option<String>,
    pub api_base: Option<String>,
    pub api_version: Option<String>,
    pub auth_method: Option<String>,
    pub api_key: Option<String>,
    pub poll_interval_secs: Option<u64>,
    pub batch_size: Option<usize>,
    pub batch_delay_ms: Option<u64>,
    pub max_content_length: Option<usize>,
}

/// The file section that is read: the given one, or an empty one.
pub open spec fn embeddings_section(f: Option<FileEmbeddingsConfig>) -> FileEmbeddingsConfig {
    match f {
        Some(x) => x,
        None => FileEmbeddingsConfig {
            provider: None,
            model: None,
            api_base: None,
            api_version: None,
            auth_method: None,
            api_key: None,
            poll_interval_secs: None,
            batch_size: None,
            batch_delay_ms: None,
            max_content_length: None,
        },
    }
}

impl Default for FileEmbeddingsConfig {
    fn default() -> (r: Self)
        ensures
            r == embeddings_section(None),
    {
        FileEmbeddingsConfig {
            provider: None,
            model: None,
            api_base: None,
            api_version: None,
            auth_method: None,
            api_key: None,
            poll_interval_secs: None,
            batch_size: None,
            batch_delay_ms: None,
            max_content_length: None,
        }
    }
}

impl EmbeddingsConfig {
    /// Whether a provider other than "none" is configured.
    pub fn is_enabled(&self) -> (r: bool)
        ensures
            r == (self.provider@ != "none"@ && self.provider@.len() != 0),
    {
        !str_eq(self.provider.as_str(), "none") && !self.provider.as_str().is_empty()
    }

    /// Whether `r` holds, for each setting, the file's value where it
    /// gives one and otherwise the default (an override first, where taken).
    pub open spec fn loaded(r: Self, file: Option<FileEmbeddingsConfig>, api_key_override: Option<String>) -> bool {
        &&& r.provider@ == str_or(embeddings_section(file).provider, "none"@)
        &&& r.model@ == str_or(embeddings_section(file).model, Seq::<char>::empty())
        &&& opt_view(r.api_base) == opt_view(embeddings_section(file).api_base)
        &&& opt_view(r.api_version) == opt_view(embeddings_section(file).api_version)
        &&& r.auth_method@ == str_or(embeddings_section(file).auth_method, "bearer"@)
        &&& opt_view(r.api_key) == match api_key_override {
            Some(k) => Some(k@),
            None => opt_view(embeddings_section(file).api_key)
        }
        &&& r.poll_interval_secs == val_or(embeddings_section(file).poll_interval_secs, 30u64)
        &&& r.batch_size == val_or(embeddings_section(file).batch_size, 32usize)
        &&& r.batch_delay_ms == val_or(embeddings_section(file).batch_delay_ms, 100u64)
        &&& r.max_content_length == val_or(embeddings_section(file).max_content_length, 8000usize)
    }

    /// Each setting from the file where it is given, else its default; the
    /// API key from `api_key_override` (the environment) before the file.
    pub fn from_file(file: Option<FileEmbeddingsConfig>, api_key_override: Option<String>) -> (r: Self)
        ensures
            Self::loaded(r, file, api_key_override),
    {
        let file = match file {
            Some(f) => f,
            None => FileEmbeddingsConfig::default(),
        };
        let d = EmbeddingsConfig::default();
        let api_key = match api_key_override {
            Some(k) => Some(k),
            None => file.api_key,
        };
        EmbeddingsConfig {
            provider: match file.provider {
                Some(v) => v,
                None => d.provider,
            },
            model: match file.model {
                Some(v) => v,
                None => d.model,
            },
            api_base: file.api_base,
            api_version: file.api_version,
            auth_method: match file.auth_method {
                Some(v) => v,
                None => d.auth_method,
            },
            api_key,
            poll_interval_secs: match file.poll_interval_secs {
                Some(v) => v,
                None => d.poll_interval_secs,
            },
            batch_size: match file.batch_size {
                Some(v) => v,
                None => d.batch_size,
            },
            batch_delay_ms: match file.batch_delay_ms {
                Some(v) => v,
                None => d.batch_delay_ms,
            },
            max_content_length: match file.max_content_length {
                Some(v) => v,
                None => d.max_content_length,
            },
        }
    }
}

// ─────────────────────────────────────────────────────────────────────────────
// OpenTelemetry
// ─────────────────────────────────────────────────────────────────────────────

/// OpenTelemetry export configuration.
#[derive(Debug, Clone)]
pub struct OtelConfig {
    pub enabled: bool,
    pub connection_string: Option<String>,
    pub service_name: String,
    pub service_version: String,
}

impl Default for OtelConfig {
    fn default() -> (r: Self)
        ensures
            !r.enabled,
            r.connection_string is None,
            r.service_name@ == "aspy"@,
            r.service_version@ == VERSION@,
    {
        OtelConfig {
            enabled: false,
            connection_string: None,
            service_name: owned("aspy"),
            service_version: owned(VERSION),
        }
    }
}

/// OpenTelemetry settings as read from the configuration file.
#[derive(Debug, Clone)]
pub struct FileOtelConfig {
    pub enabled: Option<bool>,
    pub connection_string: Option<String>,
    pub service_name: Option<String>,
    pub service_version: Option<String>,
}

/// The file section that is read: the given one, or an empty one.
pub open spec fn otel_section(f: Option<FileOtelConfig>) -> FileOtelConfig {
    match f {
        Some(x) => x,
        None => FileOtelConfig { enabled: None, connection_string: None, service_name: None, service_version: None },
    }
}

impl Default for FileOtelConfig {
    fn default() -> (r: Self)
        ensures
            r == otel_section(None),
    {
        FileOtelConfig { enabled: None, connection_string: None, service_name: None, service_version: None }
    }
}

impl OtelConfig {
    /// Whether export is enabled and has a connection string.
    pub fn is_configured(&self) -> (r: bool)
        ensures
            r == (self.enabled && self.connection_string is Some),
    {
        self.enabled && self.connection_string.is_some()
    }

    /// Whether `r` holds, for each setting, the file's value where it
    /// gives one and otherwise the default (an override first, where taken).
    pub open spec fn loaded(r: Self, file: Option<FileOtelConfig>, connection_string_override: Option<String>) -> bool {
        &&& r.enabled == val_or(otel_section(file).enabled, false)
        &&& opt_view(r.connection_string) == match connection_string_override {
            Some(c) => Some(c@),
            None => opt_view(otel_section(file).connection_string)
        }
        &&& r.service_name@ == str_or(otel_section(file).service_name, "aspy"@)
        &&& r.service_version@ == str_or(otel_section(file).service_version, VERSION@)
    }

    /// Each setting from the file where it is given, else its default; the
    /// connection string from `connection_string_override` (the environment)
    /// before the file.
    pub fn from_file(file: Option<FileOtelConfig>, connection_string_override: Option<String>) -> (r: Self)
        ensures
            Self::loaded(r, file, connection_string_override),
    {
        let file = match file {
            Some(f) => f,
            None => FileOtelConfig::default(),
        };
        let d = OtelConfig::default();
        let connection_string = match connection_string_override {
            Some(c) => Some(c),
            None => file.connection_string,
        };
        OtelConfig {
            enabled: match file.enabled {
                Some(v) => v,
                None => d.enabled,
            },
            connection_string,
            service_name: match file.service_name {
                Some(v) => v,
                None => d.service_name,
            },
            service_version: match file.service_version {
                Some(v) => v,
                None => d.service_version,
            },
        }
    }
}

// ─────────────────────────────────────────────────────────────────────────────
// Translation
// ─────────────────────────────────────────────────────────────────────────────

/// API translation settings (OpenAI <-> Anthropic).
pub struct Translation {
    pub enabled: bool,
    pub auto_detect: bool,
    /// Model name mapping (source model -> target model).
    pub model_mapping: StrMap<String>,
}

impl Default for Translation {
    fn default() -> (r: Self)
        ensures
            !r.enabled,
            r.auto_detect,
            r.model_mapping@ == Map::<Seq<char>, String>::empty(),
    {
        Translation { enabled: false, auto_detect: true, model_mapping: StrMap::new() }
    }
}

/// Translation settings as read from the configuration file.
pub struct FileTranslation {
    pub enabled: Option<bool>,
    pub auto_detect: Option<bool>,
    pub model_mapping: StrMap<String>,
}

impl Translation {
    /// Whether `r` holds, for each setting, the file's value where it
    /// gives one and otherwise the default (an override first, where taken).
    pub open spec fn loaded(r: Self, file: Option<FileTranslation>) -> bool {
        &&& r.enabled == match file {
            Some(f) => val_or(f.enabled, false),
            None => false
        }
        &&& r.auto_detect == match file {
            Some(f) => val_or(f.auto_detect, true),
            None => true
        }
        &&& r.model_mapping@ == match file {
            Some(f) => f.model_mapping@,
            None => Map::<Seq<char>, String>::empty()
        }
    }

    /// Each setting from the file where it is given, else its default; the
    /// file's model mapping when it is not empty, else the (empty) default.
    pub fn from_file(file: Option<FileTranslation>) -> (r: Self)
        ensures
            Self::loaded(r, file),
    {
        match file {
            None => Translation::default(),
            Some(f) => {
                let mapping = if f.model_mapping.is_empty() {
                    StrMap::new()
                } else {
                    f.model_mapping
                };
                Translation {
                    enabled: match f.enabled {
                        Some(v) => v,
                        None => false,
                    },
                    auto_detect: match f.auto_detect {
                        Some(v) => v,
                        None => true,
                    },
                    model_mapping: mapping,
                }
            },
        }
    }
}

} // verus!
