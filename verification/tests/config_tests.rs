use aspy::config::{Config, Environment, FileConfig};
use aspy::routing::{ApiFormat, CountTokensHandling, ProviderConfig};
use aspy::serialization::{clients_to_toml, providers_to_toml};
use aspy::settings::{
    CompactEnhancerConfig, FileFeatures, PositionConfig, RuleConfig, SystemEditorConfig, SystemRuleConfig, TagEditorConfig,
    WhenCondition,
};
use aspy::strmap::StrMap;
use aspy::text::parse_u64;

fn parse_toml(text: &str) -> Result<toml::Table, toml::de::Error> {
    text.parse::<toml::Table>()
}

fn provider(base_url: &str, api_format: ApiFormat, api_path: Option<&str>, count_tokens: Option<CountTokensHandling>) -> ProviderConfig {
    ProviderConfig {
        base_url: base_url.to_string(),
        name: None,
        api_format,
        api_path: api_path.map(|p| p.to_string()),
        auth: None,
        count_tokens,
        model_mapping: StrMap::new(),
    }
}

#[test]
fn test_config_roundtrip_default() {
    let config = Config::default();
    let toml_str = config.to_toml();
    let parsed = parse_toml(&toml_str);
    assert!(parsed.is_ok(), "Default config should round-trip.\nTOML:\n{}\nError: {:?}", toml_str, parsed.err());
}

#[test]
fn test_default_template_documents_all_transformers() {
    let config = Config::default();
    let toml_str = config.to_toml();
    assert!(
        toml_str.contains("transformers.tag-editor") || toml_str.contains("# [transformers.tag-editor]"),
        "tag-editor not documented in default template!"
    );
    assert!(
        toml_str.contains("transformers.system-editor") || toml_str.contains("# [transformers.system-editor]"),
        "system-editor not documented in default template!"
    );
    assert!(
        toml_str.contains("transformers.compact-enhancer") || toml_str.contains("# [transformers.compact-enhancer]"),
        "compact-enhancer not documented in default template!"
    );
}

#[test]
fn test_all_transformers_have_feature_definitions() {
    let mut config = Config::default();
    config.transformers.enabled = true;
    config.transformers.tag_editor = Some(TagEditorConfig {
        enabled: true,
        rules: vec![RuleConfig::Inject {
            tag: "test".to_string(),
            content: "test".to_string(),
            position: PositionConfig::End,
            when: None,
        }],
    });
    config.transformers.system_editor =
        Some(SystemEditorConfig { enabled: true, rules: vec![SystemRuleConfig::Append { content: "test".to_string() }] });
    config.transformers.compact_enhancer = Some(CompactEnhancerConfig { enabled: true });

    let features = config.feature_definitions();
    let feature_ids: Vec<&str> = features.iter().map(|f| f.id).collect();
    assert!(feature_ids.contains(&"tag-editor"), "tag-editor missing: {:?}", feature_ids);
    assert!(feature_ids.contains(&"system-editor"), "system-editor missing: {:?}", feature_ids);
    assert!(feature_ids.contains(&"compact-enhancer"), "compact-enhancer missing: {:?}", feature_ids);
    for id in ["tag-editor", "system-editor", "compact-enhancer"] {
        let feature = features.iter().find(|f| f.id == id).unwrap();
        assert!(feature.enabled, "{} should be active when enabled in config, but was {:?}", id, feature.enabled);
    }
}

#[test]
fn test_all_augmenters_have_toml_serialization() {
    let mut config = Config::default();
    config.augmentation.context_warning = true;
    config.augmentation.context_warning_thresholds = vec![50, 75, 90];
    let toml_str = config.to_toml();
    assert!(toml_str.contains("[augmentation]"), "augmentation section missing from TOML output!");
    assert!(toml_str.contains("context_warning = true"), "context_warning missing from TOML output!");
    assert!(toml_str.contains("context_warning_thresholds"), "context_warning_thresholds missing from TOML output!");
    let parsed = parse_toml(&toml_str);
    assert!(parsed.is_ok(), "Config with all augmenters should round-trip.\nError: {:?}", parsed.err());
    let table = parsed.unwrap();
    let aug = table.get("augmentation").and_then(|v| v.as_table()).expect("augmentation should be present");
    assert_eq!(aug.get("context_warning").and_then(|v| v.as_bool()), Some(true));
    let thresholds: Vec<i64> = aug
        .get("context_warning_thresholds")
        .and_then(|v| v.as_array())
        .unwrap()
        .iter()
        .map(|v| v.as_integer().unwrap())
        .collect();
    assert_eq!(thresholds, vec![50, 75, 90]);
}

#[test]
fn test_all_features_have_toml_serialization() {
    let mut config = Config::default();
    config.features.json_logging = false;
    config.features.thinking_panel = false;
    config.features.stats = false;
    let toml_str = config.to_toml();
    assert!(toml_str.contains("[features]"), "features section missing from TOML output!");
    assert!(toml_str.contains("storage = false"), "storage missing from TOML output!");
    assert!(toml_str.contains("thinking_panel = false"), "thinking_panel missing from TOML output!");
    assert!(toml_str.contains("stats = false"), "stats missing from TOML output!");
    let parsed = parse_toml(&toml_str);
    assert!(parsed.is_ok(), "Config with all features should round-trip.\nError: {:?}", parsed.err());
    let table = parsed.unwrap();
    let features = table.get("features").and_then(|v| v.as_table()).expect("features should be present");
    assert_eq!(features.get("storage").and_then(|v| v.as_bool()), Some(false));
    assert_eq!(features.get("thinking_panel").and_then(|v| v.as_bool()), Some(false));
    assert_eq!(features.get("stats").and_then(|v| v.as_bool()), Some(false));
}

#[test]
fn test_provider_api_path_serialization() {
    let mut config = Config::default();
    config.clients.providers.insert(
        "zai".to_string(),
        provider("https://api.z.ai/api/coding/paas/v4", ApiFormat::Openai, Some("/chat/completions"), None),
    );
    let toml_str = config.to_toml();
    assert!(toml_str.contains("api_path = \"/chat/completions\""), "api_path should be serialized.\nTOML:\n{}", toml_str);
    let parsed = parse_toml(&toml_str);
    assert!(parsed.is_ok(), "Config should round-trip");
    let table = parsed.unwrap();
    let provider = table
        .get("providers")
        .and_then(|v| v.as_table())
        .and_then(|t| t.get("zai"))
        .and_then(|v| v.as_table())
        .expect("zai provider should exist");
    assert_eq!(provider.get("api_path").and_then(|v| v.as_str()), Some("/chat/completions"));
}

#[test]
fn test_provider_count_tokens_toml_only_serializes_non_default() {
    let mut config = Config::default();
    config.clients.providers.insert("anthropic".to_string(), provider("https://api.anthropic.com", ApiFormat::Anthropic, None, None));
    config.clients.providers.insert(
        "openrouter".to_string(),
        provider("https://openrouter.ai/api/v1", ApiFormat::Openai, None, Some(CountTokensHandling::Dedupe)),
    );
    let toml_str = config.to_toml();
    assert!(toml_str.contains(r#"count_tokens = "dedupe""#), "Non-default count_tokens should be serialized.\nTOML:\n{}", toml_str);
    let anthropic_section = toml_str.split("[providers.anthropic]").nth(1).and_then(|s| s.split("[providers.").next());
    if let Some(section) = anthropic_section {
        assert!(!section.contains("count_tokens"), "Anthropic section should not have count_tokens (it's default).\nSection:\n{}", section);
    }
}

#[test]
fn config_defaults_are_the_documented_ones() {
    let c = Config::default();
    assert_eq!(c.bind_addr, "127.0.0.1:8080");
    assert_eq!(c.api_url, "https://api.anthropic.com");
    assert_eq!(c.log_dir, "./logs");
    assert!(c.enable_tui);
    assert!(!c.demo_mode);
    assert_eq!(c.context_limit, 150_000);
    assert_eq!(c.theme, "Spy Dark");
    assert!(c.use_theme_background);
    assert_eq!(c.preset, "classic");
    assert_eq!(c.cortex.db_path, "./data/cortex.db");
    assert_eq!(c.embeddings.provider, "none");
}

#[test]
fn empty_sources_give_the_defaults() {
    let c = Config::from_env(FileConfig::default(), Environment::default());
    let d = Config::default();
    assert_eq!(c.bind_addr, d.bind_addr);
    assert_eq!(c.context_limit, d.context_limit);
    assert_eq!(c.theme, d.theme);
    assert_eq!(c.to_toml(), d.to_toml());
}

#[test]
fn environment_wins_over_file_and_file_over_default() {
    let mut file = FileConfig::default();
    file.bind_addr = Some("0.0.0.0:9000".to_string());
    file.theme = Some("Nord".to_string());
    file.context_limit = Some(200_000);
    file.preset = Some("debug".to_string());
    file.features = Some(FileFeatures { storage: Some(false), thinking_panel: None, stats: None });
    let mut env = Environment::default();
    env.theme = Some("Dracula".to_string());
    env.context_limit = Some("not-a-number".to_string());
    env.no_tui = Some("TRUE".to_string());
    env.demo = Some("1".to_string());
    let c = Config::from_env(file, env);
    assert_eq!(c.bind_addr, "0.0.0.0:9000");
    assert_eq!(c.theme, "Dracula");
    assert_eq!(c.context_limit, 200_000);
    assert_eq!(c.preset, "debug");
    assert!(!c.enable_tui);
    assert!(c.demo_mode);
    assert!(!c.features.json_logging);
    assert!(c.features.thinking_panel);
}

#[test]
fn environment_context_limit_and_flags() {
    let mut env = Environment::default();
    env.context_limit = Some("+120000".to_string());
    env.no_tui = Some("0".to_string());
    env.demo = Some("yes".to_string());
    let c = Config::from_env(FileConfig::default(), env);
    assert_eq!(c.context_limit, 120_000);
    assert!(c.enable_tui);
    assert!(!c.demo_mode);
}

#[test]
fn parse_u64_accepts_what_std_accepts() {
    assert_eq!(parse_u64("0"), Some(0));
    assert_eq!(parse_u64("+42"), Some(42));
    assert_eq!(parse_u64("18446744073709551615"), Some(u64::MAX));
    assert_eq!(parse_u64("18446744073709551616"), None);
    assert_eq!(parse_u64(""), None);
    assert_eq!(parse_u64("+"), None);
    assert_eq!(parse_u64("-1"), None);
    assert_eq!(parse_u64(" 1"), None);
    assert_eq!(parse_u64("12a"), None);
    for s in ["7", "+99", "00012", "abc", "", "99999999999999999999"] {
        assert_eq!(parse_u64(s), s.parse::<u64>().ok(), "{}", s);
    }
}

#[test]
fn clients_are_written_in_key_order() {
    let mut clients = StrMap::new();
    clients.insert(
        "zeta".to_string(),
        aspy::routing::ClientConfig { name: "Z".to_string(), provider: "p".to_string(), tags: vec![], auth: None },
    );
    clients.insert(
        "alpha".to_string(),
        aspy::routing::ClientConfig {
            name: "A".to_string(),
            provider: "p".to_string(),
            tags: vec!["x".to_string(), "y\"z".to_string()],
            auth: None,
        },
    );
    let text = clients_to_toml(&clients);
    let expected = "\n[clients.alpha]\nname = \"A\"\nprovider = \"p\"\ntags = [\"x\", \"y\\\"z\"]\n\n[clients.zeta]\nname = \"Z\"\nprovider = \"p\"\n\n";
    assert_eq!(text, expected);
    let empty: StrMap<aspy::routing::ClientConfig> = StrMap::new();
    assert!(clients_to_toml(&empty).starts_with("\n# [clients.dev-1]"));
}

#[test]
fn provider_section_is_exact() {
    let mut providers = StrMap::new();
    let mut p = provider("https://openrouter.ai/api/v1", ApiFormat::Openai, Some("/chat/completions"), Some(CountTokensHandling::Synthetic));
    p.name = Some("OpenRouter".to_string());
    p.model_mapping.insert("sonnet".to_string(), "anthropic/sonnet-4".to_string());
    p.model_mapping.insert("haiku".to_string(), "anthropic/haiku-3".to_string());
    providers.insert("openrouter".to_string(), p);
    let text = providers_to_toml(&providers);
    let expected = "\n[providers.openrouter]\nbase_url = \"https://openrouter.ai/api/v1\"\nname = \"OpenRouter\"\napi_format = \"openai\"\napi_path = \"/chat/completions\"\n\n[providers.openrouter.model_mapping]\n\"haiku\" = \"anthropic/haiku-3\"\n\"sonnet\" = \"anthropic/sonnet-4\"\n\n";
    assert_eq!(text, expected);
}

fn table<'a>(t: &'a toml::Table, key: &str) -> &'a toml::Table {
    t.get(key).and_then(|v| v.as_table()).unwrap_or_else(|| panic!("{} should be present", key))
}

#[test]
fn test_config_roundtrip_with_transformers() {
    let mut config = Config::default();
    config.transformers.enabled = true;
    config.transformers.tag_editor = Some(TagEditorConfig {
        enabled: true,
        rules: vec![
            RuleConfig::Remove {
                tag: "system-reminder".to_string(),
                pattern: "test-pattern".to_string(),
                when: Some(WhenCondition { turn_number: Some(">2".to_string()), has_tool_results: None, client_id: None }),
            },
            RuleConfig::Inject {
                tag: "aspy-context".to_string(),
                content: "Injected content".to_string(),
                position: PositionConfig::End,
                when: Some(WhenCondition {
                    turn_number: Some("every:3".to_string()),
                    has_tool_results: Some("=0".to_string()),
                    client_id: Some("dev-1|foundry".to_string()),
                }),
            },
        ],
    });

    let toml_str = config.to_toml();
    let parsed = parse_toml(&toml_str);
    assert!(parsed.is_ok(), "Config with transformers should round-trip.\nTOML:\n{}\nError: {:?}", toml_str, parsed.err());
    let parsed = parsed.unwrap();
    let tag_editor = table(table(&parsed, "transformers"), "tag-editor");
    let rules = tag_editor.get("rules").and_then(|r| r.as_array()).expect("tag_editor should be present");
    assert_eq!(rules.len(), 2, "Should have 2 rules");
    let second = rules[1].as_table().unwrap();
    assert_eq!(second["type"].as_str(), Some("inject"));
    assert_eq!(second["when"]["client_id"].as_str(), Some("dev-1|foundry"));
    assert_eq!(rules[0]["when"]["turn_number"].as_str(), Some(">2"));
}

#[test]
fn test_all_transformers_have_toml_serialization() {
    let mut config = Config::default();
    config.transformers.enabled = true;
    config.transformers.tag_editor = Some(TagEditorConfig {
        enabled: true,
        rules: vec![RuleConfig::Inject {
            tag: "test".to_string(),
            content: "test".to_string(),
            position: PositionConfig::End,
            when: None,
        }],
    });
    config.transformers.system_editor =
        Some(SystemEditorConfig { enabled: true, rules: vec![SystemRuleConfig::Append { content: "test".to_string() }] });
    config.transformers.compact_enhancer = Some(CompactEnhancerConfig { enabled: true });

    let toml_str = config.to_toml();
    assert!(toml_str.contains("[transformers.tag-editor]"), "tag-editor missing from TOML output!\n{}", toml_str);
    assert!(toml_str.contains("[transformers.system-editor]"), "system-editor missing from TOML output!\n{}", toml_str);
    assert!(toml_str.contains("[transformers.compact-enhancer]"), "compact-enhancer missing from TOML output!\n{}", toml_str);

    let parsed = parse_toml(&toml_str);
    assert!(parsed.is_ok(), "Config with all transformers should round-trip.\nError: {:?}", parsed.err());
    let parsed = parsed.unwrap();
    let transformers = table(&parsed, "transformers");

    let tag_editor = table(transformers, "tag-editor");
    assert_eq!(tag_editor["enabled"].as_bool(), Some(true), "tag_editor.enabled should be true");
    assert_eq!(tag_editor["rules"].as_array().map(|r| r.len()), Some(1), "tag_editor should have 1 rule");

    let system_editor = table(transformers, "system-editor");
    assert_eq!(system_editor["enabled"].as_bool(), Some(true), "system_editor.enabled should be true");
    assert_eq!(system_editor["rules"].as_array().map(|r| r.len()), Some(1), "system_editor should have 1 rule");

    let compact = table(transformers, "compact-enhancer");
    assert_eq!(compact["enabled"].as_bool(), Some(true), "compact_enhancer.enabled should be true");
}

#[test]
fn transformer_rules_are_written_in_full() {
    let mut config = Config::default();
    config.transformers.enabled = true;
    config.transformers.tag_editor = Some(TagEditorConfig {
        enabled: true,
        rules: vec![
            RuleConfig::Replace {
                tag: "t".to_string(),
                pattern: "a".to_string(),
                replacement: "b".to_string(),
                when: None,
            },
            RuleConfig::Inject {
                tag: "t".to_string(),
                content: "line one\nline two".to_string(),
                position: PositionConfig::Before { pattern: "x".to_string() },
                when: None,
            },
            RuleConfig::Inject {
                tag: "t".to_string(),
                content: "c".to_string(),
                position: PositionConfig::Start,
                when: None,
            },
        ],
    });
    config.transformers.system_editor = Some(SystemEditorConfig {
        enabled: true,
        rules: vec![
            SystemRuleConfig::Prepend { content: "p".to_string() },
            SystemRuleConfig::Replace { pattern: "q".to_string(), replacement: "r".to_string() },
        ],
    });
    let t = aspy::serialization::transformers_to_toml(&config.transformers);
    assert!(t.contains("type = \"replace\"\ntag = \"t\"\npattern = \"a\"\nreplacement = \"b\"\n"));
    assert!(t.contains("content = \"\"\"\nline one\nline two\n\"\"\"\nposition.before.pattern = \"x\"\n"));
    assert!(t.contains("content = \"c\"\nposition = \"start\"\n"));
    assert!(t.contains("[[transformers.system-editor.rules]]\ntype = \"prepend\"\ncontent = \"p\"\n"));
    let parsed = parse_toml(&config.to_toml()).unwrap();
    let tag_rules = parsed["transformers"]["tag-editor"]["rules"].as_array().unwrap();
    assert_eq!(tag_rules.len(), 3);
    // The multi-line form reads back with the line break before its closing quotes.
    assert_eq!(tag_rules[1]["content"].as_str(), Some("line one\nline two\n"));
    assert_eq!(tag_rules[1]["position"]["before"]["pattern"].as_str(), Some("x"));
    // A disabled editor, or one without rules, is not written.
    config.transformers.system_editor = Some(SystemEditorConfig { enabled: true, rules: vec![] });
    assert!(!aspy::serialization::transformers_to_toml(&config.transformers).contains("system-editor"));
}

#[test]
fn rotation_names_round_trip() {
    use_rotations();
}

fn use_rotations() {
    for r in [aspy::observability::LogRotation::Hourly, aspy::observability::LogRotation::Daily, aspy::observability::LogRotation::Never] {
        assert_eq!(aspy::observability::LogRotation::from_str(r.as_str()), r);
    }
    assert_eq!(aspy::observability::LogRotation::from_str("HOURLY"), aspy::observability::LogRotation::Hourly);
    assert_eq!(aspy::observability::LogRotation::from_str("weekly"), aspy::observability::LogRotation::Daily);
}
