//! Feature flags, response augmentation and request transformer switches,
//! each with its file form and the defaults that fill what the file omits.

use vstd::prelude::*;

use crate::observability::val_or;

verus! {

/// Feature flags for optional modules (all on by default).
#[derive(Debug, Clone, Copy)]
pub struct Features {
    /// Write events to JSONL files.
    pub json_logging: bool,
    /// Show the thinking panel.
    pub thinking_panel: bool,
    /// Track token and tool statistics.
    pub stats: bool,
}

impl Default for Features {
    fn default() -> (r: Self)
        ensures
            r.json_logging,
            r.thinking_panel,
            r.stats,
    {
        Features { json_logging: true, thinking_panel: true, stats: true }
    }
}

/// Feature flags as read from the configuration file (`storage` is the
/// file's name for JSONL logging).
#[derive(Debug, Clone, Copy)]
pub struct FileFeatures {
    pub storage: Option<bool>,
    pub thinking_panel: Option<bool>,
    pub stats: Option<bool>,
}

impl Default for FileFeatures {
    fn default() -> (r: Self)
        ensures
            r.storage is None,
            r.thinking_panel is None,
            r.stats is None,
    {
        FileFeatures { storage: None, thinking_panel: None, stats: None }
    }
}

impl Features {
    /// Whether `r` holds, for each setting, the file's value where it
    /// gives one and otherwise the default (an override first, where taken).
    pub open spec fn loaded(r: Self, file: Option<FileFeatures>) -> bool {
        &&& match file {
            Some(f) => r.json_logging == val_or(f.storage, true)
                && r.thinking_panel == val_or(f.thinking_panel, true)
                && r.stats == val_or(f.stats, true),
            None => r.json_logging && r.thinking_panel && r.stats
        }
    }

    /// Each flag from the file where it is given, else on.
    pub fn from_file(file: Option<FileFeatures>) -> (r: Self)
        ensures
            Self::loaded(r, file),
    {
        let file = match file {
            Some(f) => f,
            None => FileFeatures::default(),
        };
        Features {
            json_logging: match file.storage {
                Some(b) => b,
                None => true,
            },
            thinking_panel: match file.thinking_panel {
                Some(b) => b,
                None => true,
            },
            stats: match file.stats {
                Some(b) => b,
                None => true,
            },
        }
    }
}

/// The context-warning thresholds used when none are configured.
pub open spec fn default_thresholds() -> Seq<u8> {
    seq![60u8, 80u8, 85u8, 90u8, 95u8]
}

/// The default context-warning thresholds, in percent.
pub fn default_warning_thresholds() -> (v: Vec<u8>)
    ensures
        v@ == default_thresholds(),
{
    let v: Vec<u8> = vec![60, 80, 85, 90, 95];
    assert(v@ =~= default_thresholds());
    v
}

/// Response augmentation settings.
#[derive(Debug, Clone)]
pub struct Augmentation {
    /// Inject context-usage warnings.
    pub context_warning: bool,
    /// Thresholds (percent) at which to warn.
    pub context_warning_thresholds: Vec<u8>,
}

impl Default for Augmentation {
    fn default() -> (r: Self)
        ensures
            r.context_warning,
            r.context_warning_thresholds@ == default_thresholds(),
    {
        Augmentation { context_warning: true, context_warning_thresholds: default_warning_thresholds() }
    }
}

/// Augmentation settings as read from the configuration file.
#[derive(Debug, Clone)]
pub struct FileAugmentation {
    pub context_warning: Option<bool>,
    pub context_warning_thresholds: Option<Vec<u8>>,
}

impl Augmentation {
    /// Whether `r` holds, for each setting, the file's value where it
    /// gives one and otherwise the default (an override first, where taken).
    pub open spec fn loaded(r: Self, file: Option<FileAugmentation>) -> bool {
        &&& match file {
            Some(f) => r.context_warning == val_or(f.context_warning, true)
                && r.context_warning_thresholds@ == match f.context_warning_thresholds {
                    Some(t) => t@,
                    None => default_thresholds(),
                },
            None => r.context_warning && r.context_warning_thresholds@ == default_thresholds()
        }
    }

    /// Each setting from the file where it is given, else its default.
    pub fn from_file(file: Option<FileAugmentation>) -> (r: Self)
        ensures
            Self::loaded(r, file),
    {
        match file {
            None => Augmentation::default(),
            Some(f) => Augmentation {
                context_warning: match f.context_warning {
                    Some(b) => b,
                    None => true,
                },
                context_warning_thresholds: match f.context_warning_thresholds {
                    Some(t) => t,
                    None => default_warning_thresholds(),
                },
            },
        }
    }
}

/// When a tag editor rule applies; each set field is a condition written
/// in the rule language (`">2"`, `"every:3"`, `"=0"`, `"dev-1|foundry"`).
#[derive(Debug, Clone)]
pub struct WhenCondition {
    /// Condition on the turn number.
    pub turn_number: Option<String>,
    /// Condition on the number of tool results.
    pub has_tool_results: Option<String>,
    /// Clients the rule applies to.
    pub client_id: Option<String>,
}

/// Where injected content goes in a tag.
#[derive(Debug, Clone)]
pub enum PositionConfig {
    Start,
    /// At the end (the default).
    End,
    Before { pattern: String },
    After { pattern: String },
}

/// A tag editor rule.
#[derive(Debug, Clone)]
pub enum RuleConfig {
    /// Injects content into a tag.
    Inject { tag: String, content: String, position: PositionConfig, when: Option<WhenCondition> },
    /// Removes a tag whose content matches the pattern.
    Remove { tag: String, pattern: String, when: Option<WhenCondition> },
    /// Replaces what matches the pattern inside a tag.
    Replace { tag: String, pattern: String, replacement: String, when: Option<WhenCondition> },
}

/// A system prompt editor rule.
#[derive(Debug, Clone)]
pub enum SystemRuleConfig {
    Append { content: String },
    Prepend { content: String },
    Replace { pattern: String, replacement: String },
}

/// The tag editor: on/off and its rules, in order.
#[derive(Debug, Clone)]
pub struct TagEditorConfig {
    pub enabled: bool,
    pub rules: Vec<RuleConfig>,
}

/// The system prompt editor: on/off and its rules, in order.
#[derive(Debug, Clone)]
pub struct SystemEditorConfig {
    pub enabled: bool,
    pub rules: Vec<SystemRuleConfig>,
}

/// The compaction enhancer: on/off.
#[derive(Debug, Clone, Copy)]
pub struct CompactEnhancerConfig {
    pub enabled: bool,
}

/// Request transformer settings.
#[derive(Debug, Clone)]
pub struct Transformers {
    /// Master switch: when off no transformer runs.
    pub enabled: bool,
    /// Tag editor.
    pub tag_editor: Option<TagEditorConfig>,
    /// System prompt editor.
    pub system_editor: Option<SystemEditorConfig>,
    /// Compaction enhancer.
    pub compact_enhancer: Option<CompactEnhancerConfig>,
}

impl Default for Transformers {
    fn default() -> (r: Self)
        ensures
            !r.enabled,
            r.tag_editor is None,
            r.system_editor is None,
            r.compact_enhancer is None,
    {
        Transformers { enabled: false, tag_editor: None, system_editor: None, compact_enhancer: None }
    }
}

/// Transformer settings as read from the configuration file.
#[derive(Debug, Clone)]
pub struct FileTransformers {
    pub enabled: Option<bool>,
    pub tag_editor: Option<TagEditorConfig>,
    pub system_editor: Option<SystemEditorConfig>,
    pub compact_enhancer: Option<CompactEnhancerConfig>,
}

impl Transformers {
    /// Whether `r` holds, for each setting, the file's value where it
    /// gives one and otherwise the default (an override first, where taken).
    pub open spec fn loaded(r: Self, file: Option<FileTransformers>) -> bool {
        &&& match file {
            Some(f) => r.enabled == val_or(f.enabled, false)
                && r.tag_editor == f.tag_editor
                && r.system_editor == f.system_editor
                && r.compact_enhancer == f.compact_enhancer,
            None => !r.enabled && r.tag_editor is None && r.system_editor is None
                && r.compact_enhancer is None
        }
    }

    /// The master switch from the file (off by default) and each transformer
    /// as the file gives it.
    pub fn from_file(file: Option<FileTransformers>) -> (r: Self)
        ensures
            Self::loaded(r, file),
    {
        match file {
            None => Transformers::default(),
            Some(f) => Transformers {
                enabled: match f.enabled {
                    Some(b) => b,
                    None => false,
                },
                tag_editor: f.tag_editor,
                system_editor: f.system_editor,
                compact_enhancer: f.compact_enhancer,
            },
        }
    }
}

} // verus!
