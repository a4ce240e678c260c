//! Writing the configuration as the text of its TOML file. Maps are written
//! in the order of their keys; settings that only override a default are
//! written when they differ from it.

use vstd::prelude::*;

use crate::config::Config;
use crate::observability::rotation_name;
use crate::routing::{
    api_format_name, auth_method_name, count_tokens_name, default_count_tokens, ApiFormat, ClientConfig,
    CountTokensHandling, ProviderAuth, ProviderConfig,
};
use crate::settings::{PositionConfig, RuleConfig, SystemRuleConfig, Transformers, WhenCondition};
use crate::sorting::{sorted_keys, sorted_map_keys};
use crate::strmap::StrMap;
use crate::text::{contains_seq, contains_str, decimal, join, join_strings, owned, push_decimal, push_str, str_eq, u64_to_string, views};

verus! {

// ─────────────────────────────────────────────────────────────────────────────
// Values
// ─────────────────────────────────────────────────────────────────────────────

/// `true` or `false`.
pub open spec fn bool_text(b: bool) -> Seq<char> {
    if b {
        "true"@
    } else {
        "false"@
    }
}

fn push_bool(out: &mut String, b: bool)
    ensures
        final(out)@ == old(out)@ + bool_text(b),
{
    if b {
        push_str(out, "true");
    } else {
        push_str(out, "false");
    }
}

/// What `format!("{:?}", s)` writes for a string: the string quoted, with
/// the escapes of `str`'s `Debug`.
pub uninterp spec fn debug_str_of(s: Seq<char>) -> Seq<char>;

/// `str`'s `Debug` formatting (`format!("{:?}", s)`): the result is the named
/// quoted and escaped form; the escaping rules are not written out here.
#[verifier::external_body]
fn debug_str(s: &str) -> (r: String)
    ensures
        r@ == debug_str_of(s@),
{
    format!("{:?}", s)
}

/// The quoted forms of strings.
pub open spec fn debug_views(ts: Seq<String>) -> Seq<Seq<char>> {
    ts.map_values(|t: String| debug_str_of(t@))
}

/// A list of strings as `Vec<String>`'s `Debug` writes it: `["a", "b"]`.
pub open spec fn quoted_list(ts: Seq<String>) -> Seq<char> {
    "["@ + join(debug_views(ts), ", "@) + "]"@
}

fn debug_list(ts: &Vec<String>) -> (r: String)
    ensures
        r@ == quoted_list(ts@),
{
    let mut parts: Vec<String> = Vec::new();
    let mut i: usize = 0;
    while i < ts.len()
        invariant
            i <= ts.len(),
            views(parts@) == debug_views(ts@.take(i as int)),
        decreases ts.len() - i,
    {
        let q = debug_str(ts[i].as_str());
        parts.push(q);
        assert(debug_views(ts@.take(i + 1)) =~= debug_views(ts@.take(i as int)).push(debug_str_of(ts@[i as int]@)));
        assert(views(parts@) =~= views(parts@.drop_last()).push(parts@.last()@));
        i = i + 1;
    }
    assert(ts@.take(ts.len() as int) =~= ts@);
    let mut r = owned("[");
    let body = join_strings(&parts, ", ");
    push_str(&mut r, body.as_str());
    push_str(&mut r, "]");
    r
}

/// The decimal forms of small numbers.
pub open spec fn u8_views(v: Seq<u8>) -> Seq<Seq<char>> {
    v.map_values(|x: u8| decimal(x as nat))
}

/// A list of small numbers as `Vec<u8>`'s `Debug` writes it: `[60, 80]`.
pub open spec fn u8_list_text(v: Seq<u8>) -> Seq<char> {
    "["@ + join(u8_views(v), ", "@) + "]"@
}

fn u8_list(v: &Vec<u8>) -> (r: String)
    ensures
        r@ == u8_list_text(v@),
{
    let mut parts: Vec<String> = Vec::new();
    let mut i: usize = 0;
    while i < v.len()
        invariant
            i <= v.len(),
            views(parts@) == u8_views(v@.take(i as int)),
        decreases v.len() - i,
    {
        let d = u64_to_string(v[i] as u64);
        parts.push(d);
        assert(u8_views(v@.take(i + 1)) =~= u8_views(v@.take(i as int)).push(decimal(v@[i as int] as nat)));
        assert(views(parts@) =~= views(parts@.drop_last()).push(parts@.last()@));
        i = i + 1;
    }
    assert(v@.take(v.len() as int) =~= v@);
    let mut r = owned("[");
    let body = join_strings(&parts, ", ");
    push_str(&mut r, body.as_str());
    push_str(&mut r, "]");
    r
}

/// `key = "value"` and a line break.
pub open spec fn quoted_line(key: Seq<char>, value: Seq<char>) -> Seq<char> {
    key + " = \""@ + value + "\"\n"@
}

fn push_quoted_line(out: &mut String, key: &str, value: &str)
    ensures
        final(out)@ == old(out)@ + quoted_line(key@, value@),
{
    let ghost o = out@;
    push_str(out, key);
    push_str(out, " = \"");
    push_str(out, value);
    push_str(out, "\"\n");
    assert(out@ =~= o + quoted_line(key@, value@));
}

/// The line for an optional string setting; nothing when it is not set.
pub open spec fn opt_line(key: Seq<char>, value: Option<String>) -> Seq<char> {
    match value {
        Some(v) => quoted_line(key, v@),
        None => Seq::empty(),
    }
}

fn push_opt_line(out: &mut String, key: &str, value: &Option<String>)
    ensures
        final(out)@ == old(out)@ + opt_line(key@, *value),
{
    match value {
        Some(v) => push_quoted_line(out, key, v.as_str()),
        None => {
            assert(out@ =~= out@ + Seq::<char>::empty());
        },
    }
}

// ─────────────────────────────────────────────────────────────────────────────
// Model mappings
// ─────────────────────────────────────────────────────────────────────────────

/// `"key" = "value"` lines for the keys `ks` of `m`, after `prefix`.
pub open spec fn mapping_lines(prefix: Seq<char>, ks: Seq<Seq<char>>, m: Map<Seq<char>, String>) -> Seq<char>
    decreases ks.len(),
{
    if ks.len() == 0 {
        prefix
    } else {
        mapping_lines(prefix, ks.drop_last(), m) + "\""@ + ks.last() + "\" = \""@ + m[ks.last()]@ + "\"\n"@
    }
}

/// `prefix`, then a line per entry of `m` in key order.
fn mapping_text(prefix: &str, m: &StrMap<String>) -> (r: String)
    ensures
        r@ == mapping_lines(prefix@, sorted_keys(m@.dom()), m@),
{
    let keys = sorted_map_keys(m);
    let ghost ks = views(keys@);
    let mut out = owned(prefix);
    let mut i: usize = 0;
    assert(ks.take(0) =~= Seq::<Seq<char>>::empty());
    while i < keys.len()
        invariant
            i <= keys.len(),
            ks == views(keys@),
            ks.to_set() == m@.dom(),
            out@ == mapping_lines(prefix@, ks.take(i as int), m@),
        decreases keys.len() - i,
    {
        let k = &keys[i];
        assert(ks.take(i + 1).drop_last() =~= ks.take(i as int));
        assert(ks.take(i + 1).last() == k@);
        assert(m@.dom().contains(k@)) by {
            assert(ks[i as int] == k@);
        }
        match m.get(k.as_str()) {
            Some(v) => {
                push_str(&mut out, "\"");
                push_str(&mut out, k.as_str());
                push_str(&mut out, "\" = \"");
                push_str(&mut out, v.as_str());
                push_str(&mut out, "\"\n");
            },
            None => {},
        }
        i = i + 1;
    }
    assert(ks.take(keys.len() as int) =~= ks);
    out
}

/// The translation model mapping section: a commented example when the
/// mapping is empty.
pub open spec fn translation_mapping_text(m: Map<Seq<char>, String>) -> Seq<char> {
    if m == Map::<Seq<char>, String>::empty() {
        TRANSLATION_MAPPING_HINT@
    } else {
        mapping_lines("\n[translation.model_mapping]\n"@, sorted_keys(m.dom()), m)
    }
}

/// Commented example of a translation model mapping.
pub const TRANSLATION_MAPPING_HINT: &'static str = "
# Model mappings (source model -> target model)
# Uncomment and customize as needed. Built-in defaults handle common models.
# [translation.model_mapping]
# \"gpt-4\" = \"sonnet-4-20250514\"
# \"gpt-3.5-turbo\" = \"haiku-3-20240307\"
";

fn translation_mapping(m: &StrMap<String>) -> (r: String)
    ensures
        r@ == translation_mapping_text(m@),
{
    if m.is_empty() {
        owned(TRANSLATION_MAPPING_HINT)
    } else {
        mapping_text("\n[translation.model_mapping]\n", m)
    }
}

// ─────────────────────────────────────────────────────────────────────────────
// Clients
// ─────────────────────────────────────────────────────────────────────────────

/// The section of one client.
pub open spec fn client_section(id: Seq<char>, c: ClientConfig) -> Seq<char> {
    let s = "[clients."@ + id + "]\n"@;
    let s = s + quoted_line("name"@, c.name@);
    let s = s + quoted_line("provider"@, c.provider@);
    let s = if c.tags@.len() > 0 {
        s + "tags = "@ + quoted_list(c.tags@) + "\n"@
    } else {
        s
    };
    s + "\n"@
}

fn client_section_text(id: &str, c: &ClientConfig) -> (r: String)
    ensures
        r@ == client_section(id@, *c),
{
    let mut s = owned("[clients.");
    push_str(&mut s, id);
    push_str(&mut s, "]\n");
    push_quoted_line(&mut s, "name", c.name.as_str());
    push_quoted_line(&mut s, "provider", c.provider.as_str());
    if c.tags.len() > 0 {
        push_str(&mut s, "tags = ");
        let l = debug_list(&c.tags);
        push_str(&mut s, l.as_str());
        push_str(&mut s, "\n");
    }
    push_str(&mut s, "\n");
    s
}

/// Client sections for the keys `ks` of `m`, after `prefix`.
pub open spec fn client_sections(prefix: Seq<char>, ks: Seq<Seq<char>>, m: Map<Seq<char>, ClientConfig>) -> Seq<char>
    decreases ks.len(),
{
    if ks.len() == 0 {
        prefix
    } else {
        client_sections(prefix, ks.drop_last(), m) + client_section(ks.last(), m[ks.last()])
    }
}

/// Commented example of a client section.
pub const CLIENTS_EXAMPLE: &'static str = "
# [clients.dev-1]
# name = \"Dev Laptop\"
# provider = \"anthropic\"       # References [providers.anthropic] below
";

/// The clients part of the file: a commented example when there is no
/// client, else a section per client in key order.
pub open spec fn clients_text(m: Map<Seq<char>, ClientConfig>) -> Seq<char> {
    if m == Map::<Seq<char>, ClientConfig>::empty() {
        CLIENTS_EXAMPLE@
    } else {
        client_sections("\n"@, sorted_keys(m.dom()), m)
    }
}

/// The `[clients.X]` sections of the configuration file.
pub fn clients_to_toml(m: &StrMap<ClientConfig>) -> (r: String)
    ensures
        r@ == clients_text(m@),
{
    if m.is_empty() {
        return owned(CLIENTS_EXAMPLE);
    }
    let keys = sorted_map_keys(m);
    let ghost ks = views(keys@);
    let mut out = owned("\n");
    let mut i: usize = 0;
    assert(ks.take(0) =~= Seq::<Seq<char>>::empty());
    while i < keys.len()
        invariant
            i <= keys.len(),
            ks == views(keys@),
            ks.to_set() == m@.dom(),
            out@ == client_sections("\n"@, ks.take(i as int), m@),
        decreases keys.len() - i,
    {
        let k = &keys[i];
        assert(ks.take(i + 1).drop_last() =~= ks.take(i as int));
        assert(ks.take(i + 1).last() == k@);
        assert(m@.dom().contains(k@)) by {
            assert(ks[i as int] == k@);
        }
        match m.get(k.as_str()) {
            Some(c) => {
                let sec = client_section_text(k.as_str(), c);
                push_str(&mut out, sec.as_str());
            },
            None => {},
        }
        i = i + 1;
    }
    assert(ks.take(keys.len() as int) =~= ks);
    out
}

// ─────────────────────────────────────────────────────────────────────────────
// Providers
// ─────────────────────────────────────────────────────────────────────────────

/// The `[providers.ID.auth]` part of a provider section.
pub open spec fn auth_text(id: Seq<char>, a: ProviderAuth) -> Seq<char> {
    let s = "\n[providers."@ + id + ".auth]\n"@;
    let s = s + quoted_line("method"@, auth_method_name(a.method));
    let s = s + opt_line("key_env"@, a.key_env);
    let s = s + opt_line("key"@, a.key);
    let s = s + opt_line("header_name"@, a.header_name);
    match a.strip_incoming {
        Some(b) => s + "strip_incoming = "@ + bool_text(b) + "\n"@,
        None => s,
    }
}

fn auth_section(id: &str, a: &ProviderAuth) -> (r: String)
    ensures
        r@ == auth_text(id@, *a),
{
    let mut s = owned("\n[providers.");
    push_str(&mut s, id);
    push_str(&mut s, ".auth]\n");
    push_quoted_line(&mut s, "method", a.method.as_str());
    push_opt_line(&mut s, "key_env", &a.key_env);
    push_opt_line(&mut s, "key", &a.key);
    push_opt_line(&mut s, "header_name", &a.header_name);
    match a.strip_incoming {
        Some(b) => {
            push_str(&mut s, "strip_incoming = ");
            push_bool(&mut s, b);
            push_str(&mut s, "\n");
        },
        None => {},
    }
    s
}

/// The `count_tokens` line: written when it is set and differs from the
/// default of the provider's format.
pub open spec fn count_tokens_line(p: ProviderConfig) -> Seq<char> {
    match p.count_tokens {
        Some(ct) => if ct != default_count_tokens(p.api_format) {
            quoted_line("count_tokens"@, count_tokens_name(ct))
        } else {
            Seq::empty()
        },
        None => Seq::empty(),
    }
}

/// The section of one provider.
pub open spec fn provider_section(id: Seq<char>, p: ProviderConfig) -> Seq<char> {
    let s = "[providers."@ + id + "]\n"@;
    let s = s + quoted_line("base_url"@, p.base_url@);
    let s = s + opt_line("name"@, p.name);
    let s = if p.api_format != ApiFormat::Anthropic {
        s + quoted_line("api_format"@, api_format_name(p.api_format))
    } else {
        s
    };
    let s = s + opt_line("api_path"@, p.api_path);
    let s = s + count_tokens_line(p);
    let s = match p.auth {
        Some(a) => s + auth_text(id, a),
        None => s,
    };
    let s = if p.model_mapping@ != Map::<Seq<char>, String>::empty() {
        s + mapping_lines("\n[providers."@ + id + ".model_mapping]\n"@, sorted_keys(p.model_mapping@.dom()), p.model_mapping@)
    } else {
        s
    };
    s + "\n"@
}

fn provider_section_text(id: &str, p: &ProviderConfig) -> (r: String)
    ensures
        r@ == provider_section(id@, *p),
{
    let mut s = owned("[providers.");
    push_str(&mut s, id);
    push_str(&mut s, "]\n");
    push_quoted_line(&mut s, "base_url", p.base_url.as_str());
    push_opt_line(&mut s, "name", &p.name);
    if p.api_format != ApiFormat::Anthropic {
        push_quoted_line(&mut s, "api_format", p.api_format.as_str());
    }
    push_opt_line(&mut s, "api_path", &p.api_path);
    let ghost before_ct = s@;
    match p.count_tokens {
        Some(ct) => {
            let d = match p.api_format {
                ApiFormat::Anthropic => CountTokensHandling::Passthrough,
                ApiFormat::Openai => CountTokensHandling::Synthetic,
            };
            if ct != d {
                push_quoted_line(&mut s, "count_tokens", ct.as_str());
            }
        },
        None => {},
    }
    assert(s@ =~= before_ct + count_tokens_line(*p));
    match &p.auth {
        Some(a) => {
            let t = auth_section(id, a);
            push_str(&mut s, t.as_str());
        },
        None => {},
    }
    if !p.model_mapping.is_empty() {
        let mut head = owned("\n[providers.");
        push_str(&mut head, id);
        push_str(&mut head, ".model_mapping]\n");
        let t = mapping_text(head.as_str(), &p.model_mapping);
        push_str(&mut s, t.as_str());
    }
    push_str(&mut s, "\n");
    s
}

/// Provider sections for the keys `ks` of `m`, after `prefix`.
pub open spec fn provider_sections(prefix: Seq<char>, ks: Seq<Seq<char>>, m: Map<Seq<char>, ProviderConfig>) -> Seq<char>
    decreases ks.len(),
{
    if ks.len() == 0 {
        prefix
    } else {
        provider_sections(prefix, ks.drop_last(), m) + provider_section(ks.last(), m[ks.last()])
    }
}

/// Commented example of provider sections.
pub const PROVIDERS_EXAMPLE: &'static str = "
# [providers.anthropic]
# base_url = \"https://api.anthropic.com\"
# # count_tokens defaults to \"passthrough\" for anthropic api_format
#
# # Provider with OpenAI-compatible API (e.g., OpenRouter)
# [providers.openrouter]
# base_url = \"https://openrouter.ai/api/v1\"
# api_format = \"openai\"  # Translate Anthropic <-> OpenAI format
# api_path = \"/chat/completions\"  # Optional: custom path (default: /v1/chat/completions)
# # count_tokens defaults to \"synthetic\" for openai api_format (endpoint doesn't exist)
# # count_tokens = \"dedupe\"  # Override: use rate-limited deduplication
# [providers.openrouter.auth]
# method = \"bearer\"
# key_env = \"OPENROUTER_API_KEY\"
# strip_incoming = true
# # Per-provider model mapping (overrides global [translation.model_mapping])
# [providers.openrouter.model_mapping]
# \"haiku\" = \"anthropic/haiku-3\"
# \"sonnet\" = \"anthropic/sonnet-4\"
#
# # Provider with non-standard path (e.g., z.ai)
# [providers.zai]
# base_url = \"https://api.z.ai/api/coding/paas/v4\"
# api_format = \"openai\"
# api_path = \"/chat/completions\"  # Path appended to base_url (no /v1 prefix)
# [providers.zai.model_mapping]
# \"haiku\" = \"grok-3-mini-beta\"
# \"sonnet\" = \"grok-3-beta\"
";

/// The providers part of the file: a commented example when there is no
/// provider, else a section per provider in key order.
pub open spec fn providers_text(m: Map<Seq<char>, ProviderConfig>) -> Seq<char> {
    if m == Map::<Seq<char>, ProviderConfig>::empty() {
        PROVIDERS_EXAMPLE@
    } else {
        provider_sections("\n"@, sorted_keys(m.dom()), m)
    }
}

/// The `[providers.X]` sections of the configuration file.
pub fn providers_to_toml(m: &StrMap<ProviderConfig>) -> (r: String)
    ensures
        r@ == providers_text(m@),
{
    if m.is_empty() {
        return owned(PROVIDERS_EXAMPLE);
    }
    let keys = sorted_map_keys(m);
    let ghost ks = views(keys@);
    let mut out = owned("\n");
    let mut i: usize = 0;
    assert(ks.take(0) =~= Seq::<Seq<char>>::empty());
    while i < keys.len()
        invariant
            i <= keys.len(),
            ks == views(keys@),
            ks.to_set() == m@.dom(),
            out@ == provider_sections("\n"@, ks.take(i as int), m@),
        decreases keys.len() - i,
    {
        let k = &keys[i];
        assert(ks.take(i + 1).drop_last() =~= ks.take(i as int));
        assert(ks.take(i + 1).last() == k@);
        assert(m@.dom().contains(k@)) by {
            assert(ks[i as int] == k@);
        }
        match m.get(k.as_str()) {
            Some(p) => {
                let sec = provider_section_text(k.as_str(), p);
                push_str(&mut out, sec.as_str());
            },
            None => {},
        }
        i = i + 1;
    }
    assert(ks.take(keys.len() as int) =~= ks);
    out
}

// ─────────────────────────────────────────────────────────────────────────────
// Transformers, embeddings, telemetry
// ─────────────────────────────────────────────────────────────────────────────

/// Header of an enabled tag editor section.
pub const TAG_EDITOR_SECTION: &'static str = "\n[transformers.tag-editor]\nenabled = true\n";

/// Header of an enabled system editor section.
pub const SYSTEM_EDITOR_SECTION: &'static str = "
# ─────────────────────────────────────────────────────────────────────────────
# SYSTEM EDITOR
# ─────────────────────────────────────────────────────────────────────────────
# Modifies system prompts in API requests.

[transformers.system-editor]
enabled = true
";

/// An enabled compaction enhancer section.
pub const COMPACT_ENHANCER_SECTION: &'static str = "
# ─────────────────────────────────────────────────────────────────────────────
# COMPACTION ENHANCER
# ─────────────────────────────────────────────────────────────────────────────
# Detects Anthropic's compaction prompt and injects continuity guidance.
# The summarizing model writes a handoff note; the continuing model reads it.

[transformers.compact-enhancer]
enabled = true
";

/// A rule's `content` line: a multi-line TOML string when the content
/// holds a line break, else a quoted one.
pub open spec fn content_text(c: Seq<char>) -> Seq<char> {
    if contains_seq(c, seq!['\n']) {
        "content = \"\"\"\n"@ + c + "\n\"\"\"\n"@
    } else {
        quoted_line("content"@, c)
    }
}

/// A rule's `when` condition as dotted keys, one line per set field.
pub open spec fn when_text(w: Option<WhenCondition>) -> Seq<char> {
    match w {
        None => Seq::empty(),
        Some(c) => opt_line("when.turn_number"@, c.turn_number) + opt_line("when.has_tool_results"@, c.has_tool_results)
            + opt_line("when.client_id"@, c.client_id),
    }
}

/// An injection's position line; nothing for the default, the end.
pub open spec fn position_text(p: PositionConfig) -> Seq<char> {
    match p {
        PositionConfig::Start => "position = \"start\"\n"@,
        PositionConfig::End => Seq::empty(),
        PositionConfig::Before { pattern } => quoted_line("position.before.pattern"@, pattern@),
        PositionConfig::After { pattern } => quoted_line("position.after.pattern"@, pattern@),
    }
}

/// A tag editor rule as an entry of the `rules` array.
pub open spec fn tag_rule_text(r: RuleConfig) -> Seq<char> {
    "\n[[transformers.tag-editor.rules]]\n"@ + match r {
        RuleConfig::Inject { tag, content, position, when } => "type = \"inject\"\n"@ + quoted_line("tag"@, tag@)
            + content_text(content@) + position_text(position) + when_text(when),
        RuleConfig::Remove { tag, pattern, when } => "type = \"remove\"\n"@ + quoted_line("tag"@, tag@) + quoted_line(
            "pattern"@,
            pattern@,
        ) + when_text(when),
        RuleConfig::Replace { tag, pattern, replacement, when } => "type = \"replace\"\n"@ + quoted_line("tag"@, tag@)
            + quoted_line("pattern"@, pattern@) + quoted_line("replacement"@, replacement@) + when_text(when),
    }
}

/// Tag editor rules, in order.
pub open spec fn tag_rules_text(rs: Seq<RuleConfig>) -> Seq<char>
    decreases rs.len(),
{
    if rs.len() == 0 {
        Seq::empty()
    } else {
        tag_rules_text(rs.drop_last()) + tag_rule_text(rs.last())
    }
}

/// A system editor rule as an entry of the `rules` array.
pub open spec fn system_rule_text(r: SystemRuleConfig) -> Seq<char> {
    "\n[[transformers.system-editor.rules]]\n"@ + match r {
        SystemRuleConfig::Append { content } => "type = \"append\"\n"@ + content_text(content@),
        SystemRuleConfig::Prepend { content } => "type = \"prepend\"\n"@ + content_text(content@),
        SystemRuleConfig::Replace { pattern, replacement } => "type = \"replace\"\n"@ + quoted_line("pattern"@, pattern@)
            + quoted_line("replacement"@, replacement@),
    }
}

/// System editor rules, in order.
pub open spec fn system_rules_text(rs: Seq<SystemRuleConfig>) -> Seq<char>
    decreases rs.len(),
{
    if rs.len() == 0 {
        Seq::empty()
    } else {
        system_rules_text(rs.drop_last()) + system_rule_text(rs.last())
    }
}

/// The transformer sections: the tag and system editors, each with every
/// rule, when enabled with rules; the compaction enhancer when enabled.
pub open spec fn transformers_text(t: Transformers) -> Seq<char> {
    let s = match t.tag_editor {
        Some(e) => if e.enabled && e.rules@.len() > 0 {
            TAG_EDITOR_SECTION@ + tag_rules_text(e.rules@)
        } else {
            Seq::empty()
        },
        None => Seq::empty(),
    };
    let s = match t.system_editor {
        Some(e) => if e.enabled && e.rules@.len() > 0 {
            s + SYSTEM_EDITOR_SECTION@ + system_rules_text(e.rules@)
        } else {
            s
        },
        None => s,
    };
    match t.compact_enhancer {
        Some(e) => if e.enabled {
            s + COMPACT_ENHANCER_SECTION@
        } else {
            s
        },
        None => s,
    }
}

fn push_content(out: &mut String, c: &str)
    ensures
        final(out)@ == old(out)@ + content_text(c@),
{
    let ghost o = out@;
    let multi = contains_str(c, "\n");
    proof {
        reveal_strlit("\n");
        assert("\n"@ =~= seq!['\n']);
    }
    if multi {
        push_str(out, "content = \"\"\"\n");
        push_str(out, c);
        push_str(out, "\n\"\"\"\n");
        assert(out@ =~= o + content_text(c@));
    } else {
        push_quoted_line(out, "content", c);
    }
}

fn push_when(out: &mut String, w: &Option<WhenCondition>)
    ensures
        final(out)@ == old(out)@ + when_text(*w),
{
    match w {
        None => {},
        Some(c) => {
            let ghost o = out@;
            push_opt_line(out, "when.turn_number", &c.turn_number);
            push_opt_line(out, "when.has_tool_results", &c.has_tool_results);
            push_opt_line(out, "when.client_id", &c.client_id);
            assert(out@ =~= o + when_text(*w));
        },
    }
}

fn push_position(out: &mut String, p: &PositionConfig)
    ensures
        final(out)@ == old(out)@ + position_text(*p),
{
    match p {
        PositionConfig::Start => {
            push_str(out, "position = \"start\"\n");
        },
        PositionConfig::End => {
            assert(out@ =~= out@ + Seq::<char>::empty());
        },
        PositionConfig::Before { pattern } => push_quoted_line(out, "position.before.pattern", pattern.as_str()),
        PositionConfig::After { pattern } => push_quoted_line(out, "position.after.pattern", pattern.as_str()),
    }
}

fn push_tag_rule(out: &mut String, r: &RuleConfig)
    ensures
        final(out)@ == old(out)@ + tag_rule_text(*r),
{
    let ghost o = out@;
    push_str(out, "\n[[transformers.tag-editor.rules]]\n");
    match r {
        RuleConfig::Inject { tag, content, position, when } => {
            push_str(out, "type = \"inject\"\n");
            push_quoted_line(out, "tag", tag.as_str());
            push_content(out, content.as_str());
            push_position(out, position);
            push_when(out, when);
        },
        RuleConfig::Remove { tag, pattern, when } => {
            push_str(out, "type = \"remove\"\n");
            push_quoted_line(out, "tag", tag.as_str());
            push_quoted_line(out, "pattern", pattern.as_str());
            push_when(out, when);
        },
        RuleConfig::Replace { tag, pattern, replacement, when } => {
            push_str(out, "type = \"replace\"\n");
            push_quoted_line(out, "tag", tag.as_str());
            push_quoted_line(out, "pattern", pattern.as_str());
            push_quoted_line(out, "replacement", replacement.as_str());
            push_when(out, when);
        },
    }
    assert(out@ =~= o + tag_rule_text(*r));
}

fn push_system_rule(out: &mut String, r: &SystemRuleConfig)
    ensures
        final(out)@ == old(out)@ + system_rule_text(*r),
{
    let ghost o = out@;
    push_str(out, "\n[[transformers.system-editor.rules]]\n");
    match r {
        SystemRuleConfig::Append { content } => {
            push_str(out, "type = \"append\"\n");
            push_content(out, content.as_str());
        },
        SystemRuleConfig::Prepend { content } => {
            push_str(out, "type = \"prepend\"\n");
            push_content(out, content.as_str());
        },
        SystemRuleConfig::Replace { pattern, replacement } => {
            push_str(out, "type = \"replace\"\n");
            push_quoted_line(out, "pattern", pattern.as_str());
            push_quoted_line(out, "replacement", replacement.as_str());
        },
    }
    assert(out@ =~= o + system_rule_text(*r));
}

fn push_tag_rules(out: &mut String, rs: &Vec<RuleConfig>)
    ensures
        final(out)@ == old(out)@ + tag_rules_text(rs@),
{
    let ghost o = out@;
    let mut i: usize = 0;
    assert(rs@.take(0) =~= Seq::<RuleConfig>::empty());
    while i < rs.len()
        invariant
            i <= rs.len(),
            out@ == o + tag_rules_text(rs@.take(i as int)),
        decreases rs.len() - i,
    {
        push_tag_rule(out, &rs[i]);
        assert(rs@.take(i + 1).drop_last() =~= rs@.take(i as int));
        assert(rs@.take(i + 1).last() == rs@[i as int]);
        assert(out@ =~= o + tag_rules_text(rs@.take(i + 1)));
        i = i + 1;
    }
    assert(rs@.take(rs.len() as int) =~= rs@);
}

fn push_system_rules(out: &mut String, rs: &Vec<SystemRuleConfig>)
    ensures
        final(out)@ == old(out)@ + system_rules_text(rs@),
{
    let ghost o = out@;
    let mut i: usize = 0;
    assert(rs@.take(0) =~= Seq::<SystemRuleConfig>::empty());
    while i < rs.len()
        invariant
            i <= rs.len(),
            out@ == o + system_rules_text(rs@.take(i as int)),
        decreases rs.len() - i,
    {
        push_system_rule(out, &rs[i]);
        assert(rs@.take(i + 1).drop_last() =~= rs@.take(i as int));
        assert(rs@.take(i + 1).last() == rs@[i as int]);
        assert(out@ =~= o + system_rules_text(rs@.take(i + 1)));
        i = i + 1;
    }
    assert(rs@.take(rs.len() as int) =~= rs@);
}

/// The transformer sections of the configuration file.
pub fn transformers_to_toml(t: &Transformers) -> (r: String)
    ensures
        r@ == transformers_text(*t),
{
    let mut s = String::new();
    match &t.tag_editor {
        Some(e) => {
            if e.enabled && e.rules.len() > 0 {
                push_str(&mut s, TAG_EDITOR_SECTION);
                push_tag_rules(&mut s, &e.rules);
                assert(s@ =~= TAG_EDITOR_SECTION@ + tag_rules_text(e.rules@));
            }
        },
        None => {},
    }
    let ghost s1 = s@;
    match &t.system_editor {
        Some(e) => {
            if e.enabled && e.rules.len() > 0 {
                push_str(&mut s, SYSTEM_EDITOR_SECTION);
                push_system_rules(&mut s, &e.rules);
                assert(s@ =~= s1 + SYSTEM_EDITOR_SECTION@ + system_rules_text(e.rules@));
            }
        },
        None => {},
    }
    match &t.compact_enhancer {
        Some(e) => {
            if e.enabled {
                push_str(&mut s, COMPACT_ENHANCER_SECTION);
            }
        },
        None => {},
    }
    s
}

/// The `api_base` line, or a commented example when it is not set.
pub open spec fn api_base_text(a: Option<String>) -> Seq<char> {
    match a {
        Some(url) => quoted_line("api_base"@, url@),
        None => API_BASE_HINT@,
    }
}

/// Commented example of an embeddings API base.
pub const API_BASE_HINT: &'static str = "# api_base = \"https://api.openai.com/v1\"  # For remote provider\n";

fn api_base_line(a: &Option<String>) -> (r: String)
    ensures
        r@ == api_base_text(*a),
{
    match a {
        Some(url) => {
            let mut s = String::new();
            push_quoted_line(&mut s, "api_base", url.as_str());
            assert(s@ =~= quoted_line("api_base"@, url@));
            s
        },
        None => owned(API_BASE_HINT),
    }
}

/// The `auth_method` line when it is not `bearer`, else a commented hint.
pub open spec fn auth_method_text(m: Seq<char>) -> Seq<char> {
    if m != "bearer"@ {
        quoted_line("auth_method"@, m)
    } else {
        AUTH_METHOD_HINT@
    }
}

/// Commented hint on the embeddings auth method.
pub const AUTH_METHOD_HINT: &'static str = "# auth_method = \"bearer\"  # \"bearer\" or \"api-key\" (Azure)\n";

fn auth_method_line(m: &str) -> (r: String)
    ensures
        r@ == auth_method_text(m@),
{
    if !str_eq(m, "bearer") {
        let mut s = String::new();
        push_quoted_line(&mut s, "auth_method", m);
        assert(s@ =~= quoted_line("auth_method"@, m@));
        s
    } else {
        owned(AUTH_METHOD_HINT)
    }
}

/// The `connection_string` line, or a commented example when not set.
pub open spec fn connection_text(c: Option<String>) -> Seq<char> {
    match c {
        Some(cs) => quoted_line("connection_string"@, cs@),
        None => CONNECTION_STRING_HINT@,
    }
}

/// Commented example of a telemetry connection string.
pub const CONNECTION_STRING_HINT: &'static str = "# connection_string = \"InstrumentationKey=...;IngestionEndpoint=...\"\n";

fn connection_line(c: &Option<String>) -> (r: String)
    ensures
        r@ == connection_text(*c),
{
    match c {
        Some(cs) => {
            let mut s = String::new();
            push_quoted_line(&mut s, "connection_string", cs.as_str());
            assert(s@ =~= quoted_line("connection_string"@, cs@));
            s
        },
        None => owned(CONNECTION_STRING_HINT),
    }
}

// ─────────────────────────────────────────────────────────────────────────────
// The whole file
// ─────────────────────────────────────────────────────────────────────────────

pub const TOML_PART_0: &'static str = "# aspy configuration

# Theme: Spy Dark, Spy Light, One Half Dark, Dracula, Nord, Gruvbox Dark, Monokai Pro, etc.
# See full list in the theme selector (press 't' in the TUI)
theme = \"";
pub const TOML_PART_1: &'static str = "\"

# Use theme's background color (true) or terminal's default (false)
use_theme_background = ";
pub const TOML_PART_2: &'static str = "

# Layout preset: classic, reasoning, debug
preset = \"";
pub const TOML_PART_3: &'static str = "\"

# Context window limit for the gauge
context_limit = ";
pub const TOML_PART_4: &'static str = "

# Proxy bind address
bind_addr = \"";
pub const TOML_PART_5: &'static str = "\"

# Log directory for session files
log_dir = \"";
pub const TOML_PART_6: &'static str = "\"

# Feature flags
[features]
storage = ";
pub const TOML_PART_7: &'static str = "
thinking_panel = ";
pub const TOML_PART_8: &'static str = "
stats = ";
pub const TOML_PART_9: &'static str = "

# Augmentation (response modifications)
[augmentation]
context_warning = ";
pub const TOML_PART_10: &'static str = "
context_warning_thresholds = ";
pub const TOML_PART_11: &'static str = "

# Logging configuration (RUST_LOG env var overrides)
[logging]
level = \"";
pub const TOML_PART_12: &'static str = "\"
# File logging (in addition to TUI buffer or stdout)
file_enabled = ";
pub const TOML_PART_13: &'static str = "
file_dir = \"";
pub const TOML_PART_14: &'static str = "\"
file_rotation = \"";
pub const TOML_PART_15: &'static str = "\"  # hourly, daily, never
file_prefix = \"";
pub const TOML_PART_16: &'static str = "\"

# Lifetime statistics storage (SQLite-backed context recovery)
[cortex]
enabled = ";
pub const TOML_PART_17: &'static str = "
db_path = \"";
pub const TOML_PART_18: &'static str = "\"
store_thinking = ";
pub const TOML_PART_19: &'static str = "
store_tool_io = ";
pub const TOML_PART_20: &'static str = "
max_thinking_size = ";
pub const TOML_PART_21: &'static str = "
retention_days = ";
pub const TOML_PART_22: &'static str = "
channel_buffer = ";
pub const TOML_PART_23: &'static str = "
batch_size = ";
pub const TOML_PART_24: &'static str = "
flush_interval_secs = ";
pub const TOML_PART_25: &'static str = "

# ─────────────────────────────────────────────────────────────────────────────
# SEMANTIC SEARCH EMBEDDINGS (Optional)
# ─────────────────────────────────────────────────────────────────────────────
# Enable vector embeddings for semantic search alongside FTS5 keyword search.
# API keys should be set via environment variables (OPENAI_API_KEY, etc.)
#
# Provider options: \"none\" (default), \"local\", \"remote\"
# - none: FTS5 keyword search only (no embeddings)
# - local: ONNX models via fastembed (requires --features local-embeddings)
# - remote: OpenAI-compatible API (OpenAI, Azure, OpenRouter)
[embeddings]
provider = \"";
pub const TOML_PART_26: &'static str = "\"
model = \"";
pub const TOML_PART_27: &'static str = "\"
";
pub const TOML_PART_28: &'static str = "";
pub const TOML_PART_29: &'static str = "poll_interval_secs = ";
pub const TOML_PART_30: &'static str = "
batch_size = ";
pub const TOML_PART_31: &'static str = "
batch_delay_ms = ";
pub const TOML_PART_32: &'static str = "
max_content_length = ";
pub const TOML_PART_33: &'static str = "

# ─────────────────────────────────────────────────────────────────────────────
# API TRANSLATION (Optional - OpenAI ↔ Anthropic)
# ─────────────────────────────────────────────────────────────────────────────
# Enable bidirectional translation between OpenAI and Anthropic API formats.
# When enabled, the proxy can accept OpenAI-formatted requests (/v1/chat/completions),
# translate them to Anthropic format, and translate responses back.
#
# Use case: Run OpenAI-compatible tools through Anthropic's API.

[translation]
enabled = ";
pub const TOML_PART_34: &'static str = "
auto_detect = ";
pub const TOML_PART_35: &'static str = "
";
pub const TOML_PART_36: &'static str = "
# ─────────────────────────────────────────────────────────────────────────────
# REQUEST TRANSFORMERS (Optional)
# ─────────────────────────────────────────────────────────────────────────────
# Modify API requests before they are forwarded to the provider.
# Use for editing <system-reminder> tags, injecting context, etc.
#
# IMPORTANT: Set enabled = true to activate transformers.

[transformers]
enabled = ";
pub const TOML_PART_37: &'static str = "

# System Reminder Editor - modify <system-reminder> tags in user messages
# Rules are applied in order. Rule types:
#   inject  - Add new <system-reminder> content (position: start, end, before, after)
#   remove  - Remove reminders matching a regex pattern
#   replace - Replace content within matching reminders
#
# Example: Inject a custom context reminder
# [transformers.tag-editor]
# enabled = true
# [[transformers.tag-editor.rules]]
# type = \"inject\"
# content = \"Always respond in formal English.\"
# position = \"end\"
#
# Example: Remove noisy debug reminders
# [[transformers.tag-editor.rules]]
# type = \"remove\"
# pattern = \"debug|noisy\"  # Regex: removes reminders containing \"debug\" or \"noisy\"
#
# Example: Replace text within reminders (supports capture groups)
# [[transformers.tag-editor.rules]]
# type = \"replace\"
# pattern = \"version (\\\\d+\\\\.\\\\d+)\"  # Capture the version number
# replacement = \"version $1-patched\"  # Use $1, $2, etc. for captured groups
#
# System Editor - modify the system prompt (project instruction files, etc.)
# Rule types: append, prepend, replace
#
# Example: Append instructions to the system prompt
# [transformers.system-editor]
# enabled = true
# [[transformers.system-editor.rules]]
# type = \"append\"
# content = \"Always prioritize security best practices.\"
#
# Example: Replace text in the system prompt
# [[transformers.system-editor.rules]]
# type = \"replace\"
# pattern = \"old text\"
# replacement = \"new text\"
#
# Compaction Enhancer - inject continuity guidance when the client runs /compact
# [transformers.compact-enhancer]
# enabled = true
";
pub const TOML_PART_38: &'static str = "
# ─────────────────────────────────────────────────────────────────────────────
# OPENTELEMETRY EXPORT (Optional)
# ─────────────────────────────────────────────────────────────────────────────
# Export telemetry to Azure Application Insights or other OTel-compatible backends.
# Connection string can also be set via APPLICATIONINSIGHTS_CONNECTION_STRING env var.

[otel]
enabled = ";
pub const TOML_PART_39: &'static str = "
";
pub const TOML_PART_40: &'static str = "service_name = \"";
pub const TOML_PART_41: &'static str = "\"
service_version = \"";
pub const TOML_PART_42: &'static str = "\"

# ─────────────────────────────────────────────────────────────────────────────
# MULTI-CLIENT ROUTING (Optional)
# ─────────────────────────────────────────────────────────────────────────────
# Track multiple client instances through a single proxy using named clients.
# Each client connects via URL path: http://localhost:8080/<client-id>
#
# Example: ANTHROPIC_BASE_URL=http://127.0.0.1:8080/dev-1 <client command>
";
pub const TOML_PART_43: &'static str = "
# ─────────────────────────────────────────────────────────────────────────────
# PROVIDER BACKENDS (Optional)
# ─────────────────────────────────────────────────────────────────────────────
# Define where to forward API requests. Clients reference these by name.
";
pub const TOML_PART_44: &'static str = "
";

/// The configuration written as the TOML configuration file, with the
/// explanatory comments of the template.
pub open spec fn config_toml(c: Config) -> Seq<char> {
    let s = TOML_PART_0@;
    let s = s + c.theme@;
    let s = s + TOML_PART_1@;
    let s = s + bool_text(c.use_theme_background);
    let s = s + TOML_PART_2@;
    let s = s + c.preset@;
    let s = s + TOML_PART_3@;
    let s = s + decimal(c.context_limit as nat);
    let s = s + TOML_PART_4@;
    let s = s + c.bind_addr@;
    let s = s + TOML_PART_5@;
    let s = s + c.log_dir@;
    let s = s + TOML_PART_6@;
    let s = s + bool_text(c.features.json_logging);
    let s = s + TOML_PART_7@;
    let s = s + bool_text(c.features.thinking_panel);
    let s = s + TOML_PART_8@;
    let s = s + bool_text(c.features.stats);
    let s = s + TOML_PART_9@;
    let s = s + bool_text(c.augmentation.context_warning);
    let s = s + TOML_PART_10@;
    let s = s + u8_list_text(c.augmentation.context_warning_thresholds@);
    let s = s + TOML_PART_11@;
    let s = s + c.logging.level@;
    let s = s + TOML_PART_12@;
    let s = s + bool_text(c.logging.file_enabled);
    let s = s + TOML_PART_13@;
    let s = s + c.logging.file_dir@;
    let s = s + TOML_PART_14@;
    let s = s + rotation_name(c.logging.file_rotation);
    let s = s + TOML_PART_15@;
    let s = s + c.logging.file_prefix@;
    let s = s + TOML_PART_16@;
    let s = s + bool_text(c.cortex.enabled);
    let s = s + TOML_PART_17@;
    let s = s + c.cortex.db_path@;
    let s = s + TOML_PART_18@;
    let s = s + bool_text(c.cortex.store_thinking);
    let s = s + TOML_PART_19@;
    let s = s + bool_text(c.cortex.store_tool_io);
    let s = s + TOML_PART_20@;
    let s = s + decimal(c.cortex.max_thinking_size as nat);
    let s = s + TOML_PART_21@;
    let s = s + decimal(c.cortex.retention_days as nat);
    let s = s + TOML_PART_22@;
    let s = s + decimal(c.cortex.channel_buffer as nat);
    let s = s + TOML_PART_23@;
    let s = s + decimal(c.cortex.batch_size as nat);
    let s = s + TOML_PART_24@;
    let s = s + decimal(c.cortex.flush_interval_secs as nat);
    let s = s + TOML_PART_25@;
    let s = s + c.embeddings.provider@;
    let s = s + TOML_PART_26@;
    let s = s + c.embeddings.model@;
    let s = s + TOML_PART_27@;
    let s = s + api_base_text(c.embeddings.api_base);
    let s = s + TOML_PART_28@;
    let s = s + auth_method_text(c.embeddings.auth_method@);
    let s = s + TOML_PART_29@;
    let s = s + decimal(c.embeddings.poll_interval_secs as nat);
    let s = s + TOML_PART_30@;
    let s = s + decimal(c.embeddings.batch_size as nat);
    let s = s + TOML_PART_31@;
    let s = s + decimal(c.embeddings.batch_delay_ms as nat);
    let s = s + TOML_PART_32@;
    let s = s + decimal(c.embeddings.max_content_length as nat);
    let s = s + TOML_PART_33@;
    let s = s + bool_text(c.translation.enabled);
    let s = s + TOML_PART_34@;
    let s = s + bool_text(c.translation.auto_detect);
    let s = s + TOML_PART_35@;
    let s = s + translation_mapping_text(c.translation.model_mapping@);
    let s = s + TOML_PART_36@;
    let s = s + bool_text(c.transformers.enabled);
    let s = s + TOML_PART_37@;
    let s = s + transformers_text(c.transformers);
    let s = s + TOML_PART_38@;
    let s = s + bool_text(c.otel.enabled);
    let s = s + TOML_PART_39@;
    let s = s + connection_text(c.otel.connection_string);
    let s = s + TOML_PART_40@;
    let s = s + c.otel.service_name@;
    let s = s + TOML_PART_41@;
    let s = s + c.otel.service_version@;
    let s = s + TOML_PART_42@;
    let s = s + clients_text(c.clients.clients@);
    let s = s + TOML_PART_43@;
    let s = s + providers_text(c.clients.providers@);
    let s = s + TOML_PART_44@;
    s
}

impl Config {
    /// The configuration as the text of a configuration file.
    pub fn to_toml(&self) -> (r: String)
        ensures
            r@ == config_toml(*self),
    {
        let mut out = owned(TOML_PART_0);
        push_str(&mut out, self.theme.as_str());
        push_str(&mut out, TOML_PART_1);
        push_bool(&mut out, self.use_theme_background);
        push_str(&mut out, TOML_PART_2);
        push_str(&mut out, self.preset.as_str());
        push_str(&mut out, TOML_PART_3);
        push_decimal(&mut out, self.context_limit as u64);
        push_str(&mut out, TOML_PART_4);
        push_str(&mut out, self.bind_addr.as_str());
        push_str(&mut out, TOML_PART_5);
        push_str(&mut out, self.log_dir.as_str());
        push_str(&mut out, TOML_PART_6);
        push_bool(&mut out, self.features.json_logging);
        push_str(&mut out, TOML_PART_7);
        push_bool(&mut out, self.features.thinking_panel);
        push_str(&mut out, TOML_PART_8);
        push_bool(&mut out, self.features.stats);
        push_str(&mut out, TOML_PART_9);
        push_bool(&mut out, self.augmentation.context_warning);
        push_str(&mut out, TOML_PART_10);
        let t = u8_list(&self.augmentation.context_warning_thresholds);
        push_str(&mut out, t.as_str());
        push_str(&mut out, TOML_PART_11);
        push_str(&mut out, self.logging.level.as_str());
        push_str(&mut out, TOML_PART_12);
        push_bool(&mut out, self.logging.file_enabled);
        push_str(&mut out, TOML_PART_13);
        push_str(&mut out, self.logging.file_dir.as_str());
        push_str(&mut out, TOML_PART_14);
        push_str(&mut out, self.logging.file_rotation.as_str());
        push_str(&mut out, TOML_PART_15);
        push_str(&mut out, self.logging.file_prefix.as_str());
        push_str(&mut out, TOML_PART_16);
        push_bool(&mut out, self.cortex.enabled);
        push_str(&mut out, TOML_PART_17);
        push_str(&mut out, self.cortex.db_path.as_str());
        push_str(&mut out, TOML_PART_18);
        push_bool(&mut out, self.cortex.store_thinking);
        push_str(&mut out, TOML_PART_19);
        push_bool(&mut out, self.cortex.store_tool_io);
        push_str(&mut out, TOML_PART_20);
        push_decimal(&mut out, self.cortex.max_thinking_size as u64);
        push_str(&mut out, TOML_PART_21);
        push_decimal(&mut out, self.cortex.retention_days as u64);
        push_str(&mut out, TOML_PART_22);
        push_decimal(&mut out, self.cortex.channel_buffer as u64);
        push_str(&mut out, TOML_PART_23);
        push_decimal(&mut out, self.cortex.batch_size as u64);
        push_str(&mut out, TOML_PART_24);
        push_decimal(&mut out, self.cortex.flush_interval_secs as u64);
        push_str(&mut out, TOML_PART_25);
        push_str(&mut out, self.embeddings.provider.as_str());
        push_str(&mut out, TOML_PART_26);
        push_str(&mut out, self.embeddings.model.as_str());
        push_str(&mut out, TOML_PART_27);
        let t = api_base_line(&self.embeddings.api_base);
        push_str(&mut out, t.as_str());
        push_str(&mut out, TOML_PART_28);
        let t = auth_method_line(self.embeddings.auth_method.as_str());
        push_str(&mut out, t.as_str());
        push_str(&mut out, TOML_PART_29);
        push_decimal(&mut out, self.embeddings.poll_interval_secs as u64);
        push_str(&mut out, TOML_PART_30);
        push_decimal(&mut out, self.embeddings.batch_size as u64);
        push_str(&mut out, TOML_PART_31);
        push_decimal(&mut out, self.embeddings.batch_delay_ms as u64);
        push_str(&mut out, TOML_PART_32);
        push_decimal(&mut out, self.embeddings.max_content_length as u64);
        push_str(&mut out, TOML_PART_33);
        push_bool(&mut out, self.translation.enabled);
        push_str(&mut out, TOML_PART_34);
        push_bool(&mut out, self.translation.auto_detect);
        push_str(&mut out, TOML_PART_35);
        let t = translation_mapping(&self.translation.model_mapping);
        push_str(&mut out, t.as_str());
        push_str(&mut out, TOML_PART_36);
        push_bool(&mut out, self.transformers.enabled);
        push_str(&mut out, TOML_PART_37);
        let t = transformers_to_toml(&self.transformers);
        push_str(&mut out, t.as_str());
        push_str(&mut out, TOML_PART_38);
        push_bool(&mut out, self.otel.enabled);
        push_str(&mut out, TOML_PART_39);
        let t = connection_line(&self.otel.connection_string);
        push_str(&mut out, t.as_str());
        push_str(&mut out, TOML_PART_40);
        push_str(&mut out, self.otel.service_name.as_str());
        push_str(&mut out, TOML_PART_41);
        push_str(&mut out, self.otel.service_version.as_str());
        push_str(&mut out, TOML_PART_42);
        let t = clients_to_toml(&self.clients.clients);
        push_str(&mut out, t.as_str());
        push_str(&mut out, TOML_PART_43);
        let t = providers_to_toml(&self.clients.providers);
        push_str(&mut out, t.as_str());
        push_str(&mut out, TOML_PART_44);
        out
    }
}

} // verus!
