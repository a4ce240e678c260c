//! The features shown at startup, each with whether the configuration turns
//! it on.

use vstd::prelude::*;

use crate::config::Config;
use crate::text::{owned, push_str};

verus! {

/// The group a feature is shown in.
#[derive(Debug, Clone, Copy, PartialEq, Eq, Structural)]
pub enum FeatureCategory {
    Core,
    Interface,
    Storage,
    Pipeline,
    Routing,
}

/// How a feature is switched on.
#[derive(Debug, Clone, Copy, PartialEq, Eq, Structural)]
pub enum FeatureKind {
    /// Always on.
    Core,
    /// Turned on or off by a flag.
    Optional,
    /// On once it is set up.
    Configurable,
}

/// A feature as shown at startup.
pub struct FeatureDefinition {
    pub id: &'static str,
    pub label: &'static str,
    pub category: FeatureCategory,
    pub kind: FeatureKind,
    /// Whether the configuration turns it on.
    pub enabled: bool,
    pub description: &'static str,
    /// What it is set up with, when on.
    pub detail: Option<String>,
    /// The configuration that turns it on, shown when it is off.
    pub setup_hint: Option<&'static str>,
}

/// A feature by its characters.
pub struct FeatureV {
    pub id: Seq<char>,
    pub label: Seq<char>,
    pub category: FeatureCategory,
    pub kind: FeatureKind,
    pub enabled: bool,
    pub description: Seq<char>,
    pub detail: Option<Seq<char>>,
    pub setup_hint: Option<Seq<char>>,
}

pub open spec fn feature_view(f: FeatureDefinition) -> FeatureV {
    FeatureV {
        id: f.id@,
        label: f.label@,
        category: f.category,
        kind: f.kind,
        enabled: f.enabled,
        description: f.description@,
        detail: match f.detail {
            Some(d) => Some(d@),
            None => None,
        },
        setup_hint: match f.setup_hint {
            Some(h) => Some(h@),
            None => None,
        },
    }
}

pub open spec fn features_view(fs: Seq<FeatureDefinition>) -> Seq<FeatureV> {
    fs.map_values(|f: FeatureDefinition| feature_view(f))
}

pub open spec fn feature(
    id: Seq<char>,
    label: Seq<char>,
    category: FeatureCategory,
    kind: FeatureKind,
    enabled: bool,
    description: Seq<char>,
) -> FeatureV {
    FeatureV { id, label, category, kind, enabled, description, detail: None, setup_hint: None }
}

fn make(
    id: &'static str,
    label: &'static str,
    category: FeatureCategory,
    kind: FeatureKind,
    enabled: bool,
    description: &'static str,
) -> (r: FeatureDefinition)
    ensures
        feature_view(r) == feature(id@, label@, category, kind, enabled, description@),
{
    FeatureDefinition { id, label, category, kind, enabled, description, detail: None, setup_hint: None }
}

/// Whether a transformer is active: transformers are on and it is enabled
/// (the system editor also needs rules).
pub open spec fn transformer_active(c: Config) -> (bool, bool, bool) {
    let t = c.transformers;
    (
        t.enabled && match t.tag_editor {
            Some(e) => e.enabled,
            None => false,
        },
        t.enabled && match t.system_editor {
            Some(e) => e.enabled && e.rules@.len() > 0,
            None => false,
        },
        t.enabled && match t.compact_enhancer {
            Some(e) => e.enabled,
            None => false,
        },
    )
}

/// The features in display order with whether the configuration turns each on.
pub open spec fn feature_list(c: Config) -> Seq<FeatureV> {
    let embeddings_on = c.embeddings.provider@ != "none"@ && c.embeddings.provider@.len() != 0;
    let otel_on = c.otel.enabled && c.otel.connection_string is Some;
    let (tag_on, system_on, compact_on) = transformer_active(c);
    seq![
        feature("proxy"@, "proxy"@, FeatureCategory::Core, FeatureKind::Core, true, "HTTP interception"@),
        feature("parser"@, "parser"@, FeatureCategory::Core, FeatureKind::Core, true, "Event extraction"@),
        feature("tui"@, "tui"@, FeatureCategory::Interface, FeatureKind::Optional, c.enable_tui, "Terminal interface"@),
        feature("jsonl"@, "jsonl"@, FeatureCategory::Storage, FeatureKind::Optional, c.features.json_logging, "JSONL logging"@),
        feature("cortex"@, "cortex"@, FeatureCategory::Storage, FeatureKind::Optional, c.cortex.enabled, "Cortex memory (SQLite)"@),
        feature(
            "thinking"@,
            "thinking"@,
            FeatureCategory::Pipeline,
            FeatureKind::Optional,
            c.features.thinking_panel && c.enable_tui,
            "Thinking panel"@,
        ),
        feature("stats"@, "stats"@, FeatureCategory::Pipeline, FeatureKind::Optional, c.features.stats, "Token tracking"@),
        feature(
            "ctx-warn"@,
            "ctx-warn"@,
            FeatureCategory::Pipeline,
            FeatureKind::Optional,
            c.augmentation.context_warning,
            "Context warnings"@,
        ),
        FeatureV {
            detail: if embeddings_on {
                Some(c.embeddings.provider@ + ": "@ + c.embeddings.model@)
            } else {
                None
            },
            ..feature("embeddings"@, "embeddings"@, FeatureCategory::Pipeline, FeatureKind::Configurable, embeddings_on, "Semantic search"@)
        },
        feature(
            "translation"@,
            "translation"@,
            FeatureCategory::Pipeline,
            FeatureKind::Optional,
            c.translation.enabled,
            "API translation (experimental)"@,
        ),
        feature("tag-editor"@, "tag-editor"@, FeatureCategory::Pipeline, FeatureKind::Optional, tag_on, "Request tag editing"@),
        FeatureV {
            setup_hint: Some(SYSTEM_EDITOR_HINT@),
            ..feature("system-editor"@, "system"@, FeatureCategory::Pipeline, FeatureKind::Optional, system_on, "System prompt editing"@)
        },
        FeatureV {
            setup_hint: Some(COMPACT_ENHANCER_HINT@),
            ..feature("compact-enhancer"@, "compact"@, FeatureCategory::Pipeline, FeatureKind::Optional, compact_on, "Continuity on /compact"@)
        },
        FeatureV {
            detail: if otel_on {
                Some("service: "@ + c.otel.service_name@)
            } else {
                None
            },
            ..feature("otel"@, "otel"@, FeatureCategory::Pipeline, FeatureKind::Configurable, otel_on, "Open telemetry"@)
        },
        feature(
            "routing"@,
            "routing"@,
            FeatureCategory::Routing,
            FeatureKind::Configurable,
            c.clients.clients@ != Map::<Seq<char>, crate::routing::ClientConfig>::empty(),
            "Multi-client"@,
        ),
    ]
}

/// The configuration that turns on the system editor.
pub const SYSTEM_EDITOR_HINT: &'static str = "[transformers.system-editor]\nenabled = true";

/// The configuration that turns on the compaction enhancer.
pub const COMPACT_ENHANCER_HINT: &'static str = "[transformers.compact-enhancer]\nenabled = true";

impl Config {
    /// The features shown at startup, in display order, with whether this
    /// configuration turns each on.
    #[verifier::rlimit(50)]
    pub fn feature_definitions(&self) -> (r: Vec<FeatureDefinition>)
        ensures
            features_view(r@) == feature_list(*self),
    {
        let mut v: Vec<FeatureDefinition> = Vec::new();
        v.push(make("proxy", "proxy", FeatureCategory::Core, FeatureKind::Core, true, "HTTP interception"));
        v.push(make("parser", "parser", FeatureCategory::Core, FeatureKind::Core, true, "Event extraction"));
        v.push(make("tui", "tui", FeatureCategory::Interface, FeatureKind::Optional, self.enable_tui, "Terminal interface"));
        v.push(
            make("jsonl", "jsonl", FeatureCategory::Storage, FeatureKind::Optional, self.features.json_logging, "JSONL logging"),
        );
        v.push(
            make("cortex", "cortex", FeatureCategory::Storage, FeatureKind::Optional, self.cortex.enabled, "Cortex memory (SQLite)"),
        );
        v.push(
            make(
                "thinking",
                "thinking",
                FeatureCategory::Pipeline,
                FeatureKind::Optional,
                self.features.thinking_panel && self.enable_tui,
                "Thinking panel",
            ),
        );
        v.push(make("stats", "stats", FeatureCategory::Pipeline, FeatureKind::Optional, self.features.stats, "Token tracking"));
        v.push(
            make(
                "ctx-warn",
                "ctx-warn",
                FeatureCategory::Pipeline,
                FeatureKind::Optional,
                self.augmentation.context_warning,
                "Context warnings",
            ),
        );
        let embeddings_on = self.embeddings.is_enabled();
        let mut emb = make("embeddings", "embeddings", FeatureCategory::Pipeline, FeatureKind::Configurable, embeddings_on, "Semantic search");
        if embeddings_on {
            let mut d = owned(self.embeddings.provider.as_str());
            push_str(&mut d, ": ");
            push_str(&mut d, self.embeddings.model.as_str());
            emb.detail = Some(d);
        }
        v.push(emb);
        v.push(
            make(
                "translation",
                "translation",
                FeatureCategory::Pipeline,
                FeatureKind::Optional,
                self.translation.enabled,
                "API translation (experimental)",
            ),
        );
        let t = &self.transformers;
        let tag_on = t.enabled && match &t.tag_editor {
            Some(e) => e.enabled,
            None => false,
        };
        let system_on = t.enabled && match &t.system_editor {
            Some(e) => e.enabled && e.rules.len() > 0,
            None => false,
        };
        let compact_on = t.enabled && match &t.compact_enhancer {
            Some(e) => e.enabled,
            None => false,
        };
        v.push(make("tag-editor", "tag-editor", FeatureCategory::Pipeline, FeatureKind::Optional, tag_on, "Request tag editing"));
        let mut sys = make("system-editor", "system", FeatureCategory::Pipeline, FeatureKind::Optional, system_on, "System prompt editing");
        sys.setup_hint = Some(SYSTEM_EDITOR_HINT);
        v.push(sys);
        let mut comp = make(
            "compact-enhancer",
            "compact",
            FeatureCategory::Pipeline,
            FeatureKind::Optional,
            compact_on,
            "Continuity on /compact",
        );
        comp.setup_hint = Some(COMPACT_ENHANCER_HINT);
        v.push(comp);
        let otel_on = self.otel.is_configured();
        let mut otel = make("otel", "otel", FeatureCategory::Pipeline, FeatureKind::Configurable, otel_on, "Open telemetry");
        if otel_on {
            let mut d = owned("service: ");
            push_str(&mut d, self.otel.service_name.as_str());
            otel.detail = Some(d);
        }
        v.push(otel);
        v.push(
            make(
                "routing",
                "routing",
                FeatureCategory::Routing,
                FeatureKind::Configurable,
                self.clients.is_configured(),
                "Multi-client",
            ),
        );
        let ghost fl = feature_list(*self);
        assert forall|i: int| 0 <= i < v@.len() implies #[trigger] features_view(v@)[i] == fl[i] by {
            assert(v@.len() == 15);
        }
        assert(features_view(v@) =~= fl);
        v
    }
}

} // verus!
