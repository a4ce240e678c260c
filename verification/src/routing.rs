//! Client and provider routing: which backend a client goes to, with which
//! API format, path, count_tokens handling and authentication.

use vstd::prelude::*;

use crate::strmap::StrMap;
use crate::text::{chars_of, concat, lowercase_of, opt_view, owned, str_eq, to_lowercase};

verus! {

// ─────────────────────────────────────────────────────────────────────────────
// API format
// ─────────────────────────────────────────────────────────────────────────────

/// API format expected by a provider backend.
#[derive(Debug, Clone, Copy, PartialEq, Eq, Structural)]
pub enum ApiFormat {
    /// Anthropic format: `/v1/messages` (the default).
    Anthropic,
    /// OpenAI format: `/v1/chat/completions`.
    Openai,
}

impl Default for ApiFormat {
    fn default() -> (r: Self)
        ensures
            r == ApiFormat::Anthropic,
    {
        ApiFormat::Anthropic
    }
}

/// The configuration-file spelling of an API format.
pub open spec fn api_format_name(f: ApiFormat) -> Seq<char> {
    match f {
        ApiFormat::Anthropic => "anthropic"@,
        ApiFormat::Openai => "openai"@,
    }
}

impl ApiFormat {
    /// The configuration-file spelling of this format.
    pub fn as_str(&self) -> (r: &'static str)
        ensures
            r@ == api_format_name(*self),
    {
        match self {
            ApiFormat::Anthropic => "anthropic",
            ApiFormat::Openai => "openai",
        }
    }

    /// The format a configuration-file spelling names, if any.
    pub fn from_name(name: &str) -> (r: Option<ApiFormat>)
        ensures
            r == api_format_named(name@),
    {
        if str_eq(name, "anthropic") {
            Some(ApiFormat::Anthropic)
        } else if str_eq(name, "openai") {
            Some(ApiFormat::Openai)
        } else {
            None
        }
    }
}

/// The format that a configuration-file spelling names: exactly
/// `anthropic` or `openai`.
pub open spec fn api_format_named(name: Seq<char>) -> Option<ApiFormat> {
    if name == "anthropic"@ {
        Some(ApiFormat::Anthropic)
    } else if name == "openai"@ {
        Some(ApiFormat::Openai)
    } else {
        None
    }
}

/// A format's name reads back as that format.
pub proof fn lemma_format_name_reads_back(f: ApiFormat)
    ensures
        api_format_named(api_format_name(f)) == Some(f),
{
    reveal_strlit("anthropic");
    reveal_strlit("openai");
    assert("anthropic"@[0] != "openai"@[0]);
}

// ─────────────────────────────────────────────────────────────────────────────
// count_tokens handling
// ─────────────────────────────────────────────────────────────────────────────

/// How a provider's count_tokens requests are handled.
#[derive(Debug, Clone, Copy, PartialEq, Eq, Structural)]
pub enum CountTokensHandling {
    /// Forward to the provider as-is (the default).
    Passthrough,
    /// Answer at once with a synthetic response.
    Synthetic,
    /// Deduplicate and rate-limit.
    Dedupe,
}

impl Default for CountTokensHandling {
    fn default() -> (r: Self)
        ensures
            r == CountTokensHandling::Passthrough,
    {
        CountTokensHandling::Passthrough
    }
}

/// The configuration-file spelling of a count_tokens handling.
pub open spec fn count_tokens_name(c: CountTokensHandling) -> Seq<char> {
    match c {
        CountTokensHandling::Passthrough => "passthrough"@,
        CountTokensHandling::Synthetic => "synthetic"@,
        CountTokensHandling::Dedupe => "dedupe"@,
    }
}

/// The count_tokens handling that an API format implies when none is set.
pub open spec fn default_count_tokens(f: ApiFormat) -> CountTokensHandling {
    match f {
        ApiFormat::Anthropic => CountTokensHandling::Passthrough,
        ApiFormat::Openai => CountTokensHandling::Synthetic,
    }
}

impl CountTokensHandling {
    /// The configuration-file spelling of this handling.
    pub fn as_str(&self) -> (r: &'static str)
        ensures
            r@ == count_tokens_name(*self),
    {
        match self {
            CountTokensHandling::Passthrough => "passthrough",
            CountTokensHandling::Synthetic => "synthetic",
            CountTokensHandling::Dedupe => "dedupe",
        }
    }
}

// ─────────────────────────────────────────────────────────────────────────────
// Authentication
// ─────────────────────────────────────────────────────────────────────────────

/// Authentication method used towards a provider.
#[derive(Debug, Clone, Copy, PartialEq, Eq, Structural)]
pub enum AuthMethod {
    /// Forward the client's own auth headers (the default).
    Passthrough,
    /// `Authorization: Bearer {key}`.
    Bearer,
    /// `x-api-key: {key}`.
    XApiKey,
    /// `Authorization: Basic {key}`.
    Basic,
    /// `{header_name}: {key}`.
    Header,
}

impl Default for AuthMethod {
    fn default() -> (r: Self)
        ensures
            r == AuthMethod::Passthrough,
    {
        AuthMethod::Passthrough
    }
}

/// The configuration-file spelling of an authentication method.
pub open spec fn auth_method_name(m: AuthMethod) -> Seq<char> {
    match m {
        AuthMethod::Passthrough => "passthrough"@,
        AuthMethod::Bearer => "bearer"@,
        AuthMethod::XApiKey => "x_api_key"@,
        AuthMethod::Basic => "basic"@,
        AuthMethod::Header => "header"@,
    }
}

impl AuthMethod {
    /// The configuration-file spelling of this method.
    pub fn as_str(&self) -> (r: &'static str)
        ensures
            r@ == auth_method_name(*self),
    {
        match self {
            AuthMethod::Passthrough => "passthrough",
            AuthMethod::Bearer => "bearer",
            AuthMethod::XApiKey => "x_api_key",
            AuthMethod::Basic => "basic",
            AuthMethod::Header => "header",
        }
    }
}

/// How requests to a provider are authenticated.
#[derive(Debug, Clone)]
pub struct ProviderAuth {
    /// Authentication method.
    pub method: AuthMethod,
    /// Key given directly in the configuration.
    pub key: Option<String>,
    /// Name of the environment variable that holds the key (preferred).
    pub key_env: Option<String>,
    /// Header name for the `header` method.
    pub header_name: Option<String>,
    /// Whether to strip the client's auth headers before forwarding.
    pub strip_incoming: Option<bool>,
}

impl Default for ProviderAuth {
    fn default() -> (r: Self)
        ensures
            r.method == AuthMethod::Passthrough,
            r.key is None,
            r.key_env is None,
            r.header_name is None,
            r.strip_incoming is None,
    {
        ProviderAuth {
            method: AuthMethod::Passthrough,
            key: None,
            key_env: None,
            header_name: None,
            strip_incoming: None,
        }
    }
}

/// The key that a provider auth resolves to, given the value found in the
/// environment variable it names (`None` when it names none or it is unset).
pub open spec fn resolved_key(a: ProviderAuth, env_value: Option<Seq<char>>) -> Option<Seq<char>> {
    if a.method == AuthMethod::Passthrough {
        None
    } else if a.key_env is Some && env_value is Some && env_value->0.len() > 0 {
        env_value
    } else {
        opt_view(a.key)
    }
}

/// The header (name, value) that a provider auth yields for a resolved key.
pub open spec fn auth_header(a: ProviderAuth, key: Option<Seq<char>>) -> Option<(Seq<char>, Seq<char>)> {
    match key {
        None => None,
        Some(k) => match a.method {
            AuthMethod::Passthrough => None,
            AuthMethod::Bearer => Some(("authorization"@, "Bearer "@ + k)),
            AuthMethod::XApiKey => Some(("x-api-key"@, k)),
            AuthMethod::Basic => Some(("authorization"@, "Basic "@ + k)),
            AuthMethod::Header => Some(
                (
                    lowercase_of(
                        match a.header_name {
                            Some(h) => h@,
                            None => "x-api-key"@,
                        },
                    ),
                    k,
                ),
            ),
        },
    }
}

/// The header of each method for a key `k`: Bearer sends `authorization:
/// Bearer k`, x-api-key sends `x-api-key: k`, Basic sends `authorization:
/// Basic k`, passthrough and a missing key send none. The key itself is the
/// end of the header's value in every case.
pub proof fn lemma_auth_headers(a: ProviderAuth, k: Seq<char>)
    ensures
        auth_header(a, None) is None,
        a.method == AuthMethod::Passthrough ==> auth_header(a, Some(k)) is None,
        a.method == AuthMethod::Bearer ==> auth_header(a, Some(k)) == Some(("authorization"@, seq!['B', 'e', 'a', 'r', 'e', 'r', ' '] + k)),
        a.method == AuthMethod::XApiKey ==> auth_header(a, Some(k)) == Some(("x-api-key"@, k)),
        a.method == AuthMethod::Basic ==> auth_header(a, Some(k)) == Some(("authorization"@, seq!['B', 'a', 's', 'i', 'c', ' '] + k)),
        auth_header(a, Some(k)) matches Some(h) ==> h.1.len() >= k.len() && h.1.skip(h.1.len() - k.len()) == k,
{
    reveal_strlit("Bearer ");
    reveal_strlit("Basic ");
    assert("Bearer "@ =~= seq!['B', 'e', 'a', 'r', 'e', 'r', ' ']);
    assert("Basic "@ =~= seq!['B', 'a', 's', 'i', 'c', ' ']);
    if let Some(h) = auth_header(a, Some(k)) {
        assert(h.1.skip(h.1.len() - k.len()) =~= k);
    }
}

/// The characters of an optional pair of strings.
pub open spec fn opt_pair_view(o: Option<(String, String)>) -> Option<(Seq<char>, Seq<char>)> {
    match o {
        Some((a, b)) => Some((a@, b@)),
        None => None,
    }
}

impl ProviderAuth {
    /// Whether this configuration leaves the client's auth untouched.
    pub fn is_passthrough(&self) -> (r: bool)
        ensures
            r == (self.method == AuthMethod::Passthrough),
    {
        self.method == AuthMethod::Passthrough
    }

    /// Whether the client's auth headers are stripped: the explicit setting,
    /// else true for every method but passthrough.
    pub fn should_strip_incoming(&self) -> (r: bool)
        ensures
            r == match self.strip_incoming {
                Some(b) => b,
                None => self.method != AuthMethod::Passthrough,
            },
    {
        match self.strip_incoming {
            Some(b) => b,
            None => self.method != AuthMethod::Passthrough,
        }
    }

    /// The API key to use: none for passthrough; else the value of the
    /// environment variable named by `key_env` when it is set and not empty
    /// (`env_value` is that value, read by the caller); else the direct key.
    pub fn resolve_key(&self, env_value: Option<String>) -> (r: Option<String>)
        ensures
            opt_view(r) == resolved_key(*self, opt_view(env_value)),
    {
        if self.method == AuthMethod::Passthrough {
            return None;
        }
        if self.key_env.is_some() {
            match env_value {
                Some(value) => {
                    if !value.as_str().is_empty() {
                        return Some(value);
                    }
                },
                None => {},
            }
        }
        match &self.key {
            Some(k) => Some(k.clone()),
            None => None,
        }
    }

    /// The authentication header (lower-case name, value) for the resolved
    /// key `key` (see `resolve_key`); none for passthrough or without a key.
    pub fn build_header(&self, key: Option<String>) -> (r: Option<(String, String)>)
        ensures
            opt_pair_view(r) == auth_header(*self, opt_view(key)),
    {
        let key = match key {
            Some(k) => k,
            None => return None,
        };
        proof {
            reveal_strlit("authorization");
            reveal_strlit("Bearer ");
            reveal_strlit("x-api-key");
            reveal_strlit("Basic ");
        }
        match self.method {
            AuthMethod::Passthrough => None,
            AuthMethod::Bearer => Some((owned("authorization"), concat("Bearer ", key.as_str()))),
            AuthMethod::XApiKey => Some((owned("x-api-key"), key)),
            AuthMethod::Basic => Some((owned("authorization"), concat("Basic ", key.as_str()))),
            AuthMethod::Header => {
                let name = match &self.header_name {
                    Some(h) => to_lowercase(h.as_str()),
                    None => to_lowercase("x-api-key"),
                };
                Some((name, key))
            },
        }
    }
}

// ─────────────────────────────────────────────────────────────────────────────
// Providers
// ─────────────────────────────────────────────────────────────────────────────

/// A provider backend: where requests go and how.
pub struct ProviderConfig {
    /// Base URL of the provider's API.
    pub base_url: String,
    /// Optional display name.
    pub name: Option<String>,
    /// API format the provider expects.
    pub api_format: ApiFormat,
    /// Custom API path appended to the base URL.
    pub api_path: Option<String>,
    /// Authentication; none means passthrough.
    pub auth: Option<ProviderAuth>,
    /// How count_tokens requests are handled; none means the format's default.
    pub count_tokens: Option<CountTokensHandling>,
    /// Model name mapping for this provider.
    pub model_mapping: StrMap<String>,
}

/// The path a provider's requests go to.
pub open spec fn effective_path(p: ProviderConfig) -> Seq<char> {
    match p.api_path {
        Some(path) => path@,
        None => match p.api_format {
            ApiFormat::Anthropic => "/v1/messages"@,
            ApiFormat::Openai => "/v1/chat/completions"@,
        },
    }
}

/// The count_tokens handling a provider uses.
pub open spec fn effective_handling(p: ProviderConfig) -> CountTokensHandling {
    match p.count_tokens {
        Some(c) => c,
        None => default_count_tokens(p.api_format),
    }
}

/// The index of the first `://` in `s` at or after `i`, or `s.len()`.
pub open spec fn scheme_sep_from(s: Seq<char>, i: int) -> int
    decreases s.len() - i,
{
    if i < 0 || i + 3 > s.len() {
        s.len() as int
    } else if s[i] == ':' && s[i + 1] == '/' && s[i + 2] == '/' {
        i
    } else {
        scheme_sep_from(s, i + 1)
    }
}

/// The index of the first `/` or `:` in `s` at or after `i`, or `s.len()`.
pub open spec fn host_end_from(s: Seq<char>, i: int) -> int
    decreases s.len() - i,
{
    if i < 0 || i >= s.len() {
        s.len() as int
    } else if s[i] == '/' || s[i] == ':' {
        i
    } else {
        host_end_from(s, i + 1)
    }
}

/// The host of a URL: what follows `scheme://` up to the next `/` or `:`;
/// the whole text when it has no `://`.
pub open spec fn url_host(s: Seq<char>) -> Seq<char> {
    let k = scheme_sep_from(s, 0);
    if k < s.len() {
        s.subrange(k + 3, host_end_from(s, k + 3))
    } else {
        s
    }
}

proof fn lemma_scheme_sep_bounds(s: Seq<char>, i: int)
    requires
        0 <= i,
    ensures
        scheme_sep_from(s, i) == s.len() || (i <= scheme_sep_from(s, i) && scheme_sep_from(s, i) + 3 <= s.len()),
    decreases s.len() - i,
{
    if i + 3 <= s.len() && !(s[i] == ':' && s[i + 1] == '/' && s[i + 2] == '/') {
        lemma_scheme_sep_bounds(s, i + 1);
    }
}

proof fn lemma_host_end_bounds(s: Seq<char>, i: int)
    requires
        0 <= i <= s.len(),
    ensures
        i <= host_end_from(s, i) <= s.len(),
    decreases s.len() - i,
{
    if i < s.len() && !(s[i] == '/' || s[i] == ':') {
        lemma_host_end_bounds(s, i + 1);
    }
}

/// The host of a URL (see `url_host`), as a slice of it.
pub fn host_of(url: &str) -> (r: &str)
    ensures
        r@ == url_host(url@),
{
    let v = chars_of(url);
    let n = v.len();
    let mut k: usize = 0;
    while n >= 3 && k <= n - 3 && !(v[k] == ':' && v[k + 1] == '/' && v[k + 2] == '/')
        invariant
            k <= n,
            v@ == url@,
            n == v@.len(),
            scheme_sep_from(url@, 0) == scheme_sep_from(url@, k as int),
        decreases n - k,
    {
        k = k + 1;
    }
    if !(n >= 3 && k <= n - 3) {
        proof {
            lemma_scheme_sep_bounds(url@, 0);
        }
        return url;
    }
    let start = k + 3;
    let mut e: usize = start;
    while e < n && !(v[e] == '/' || v[e] == ':')
        invariant
            v@ == url@,
            n == v@.len(),
            start <= e <= n,
            host_end_from(url@, start as int) == host_end_from(url@, e as int),
        decreases n - e,
    {
        e = e + 1;
    }
    url.substring_char(start, e)
}

impl ProviderConfig {
    /// A provider with the given base URL and format and nothing else set.
    pub fn new(base_url: String, api_format: ApiFormat) -> (r: Self)
        ensures
            r.base_url == base_url,
            r.api_format == api_format,
            r.name is None,
            r.api_path is None,
            r.auth is None,
            r.count_tokens is None,
            r.model_mapping@ == Map::<Seq<char>, String>::empty(),
    {
        ProviderConfig {
            base_url,
            name: None,
            api_format,
            api_path: None,
            auth: None,
            count_tokens: None,
            model_mapping: StrMap::new(),
        }
    }

    /// The display name, falling back to the host of the base URL.
    pub fn display_name(&self) -> (r: &str)
        ensures
            r@ == match self.name {
                Some(n) => n@,
                None => url_host(self.base_url@),
            },
    {
        match &self.name {
            Some(n) => n.as_str(),
            None => host_of(self.base_url.as_str()),
        }
    }

    /// The API path: the custom one if set, else `/v1/messages` for the
    /// Anthropic format and `/v1/chat/completions` for the OpenAI format.
    pub fn effective_api_path(&self) -> (r: &str)
        ensures
            r@ == effective_path(*self),
    {
        proof {
            reveal_strlit("/v1/messages");
            reveal_strlit("/v1/chat/completions");
        }
        match &self.api_path {
            Some(path) => path.as_str(),
            None => match self.api_format {
                ApiFormat::Anthropic => "/v1/messages",
                ApiFormat::Openai => "/v1/chat/completions",
            },
        }
    }

    /// The count_tokens handling: the explicit one if set, else passthrough
    /// for the Anthropic format and synthetic for the OpenAI format.
    pub fn effective_count_tokens(&self) -> (r: CountTokensHandling)
        ensures
            r == effective_handling(*self),
    {
        match self.count_tokens {
            Some(c) => c,
            None => match self.api_format {
                ApiFormat::Anthropic => CountTokensHandling::Passthrough,
                ApiFormat::Openai => CountTokensHandling::Synthetic,
            },
        }
    }
}

// ─────────────────────────────────────────────────────────────────────────────
// Clients
// ─────────────────────────────────────────────────────────────────────────────

/// A named client and the provider it is routed to.
#[derive(Debug, Clone)]
pub struct ClientConfig {
    /// Human-readable name.
    pub name: String,
    /// Identifier of the provider (a key of the providers map).
    pub provider: String,
    /// Tags for grouping.
    pub tags: Vec<String>,
    /// Authentication override, before the provider's.
    pub auth: Option<ProviderAuth>,
}

/// All clients and providers.
pub struct ClientsConfig {
    /// client id -> client.
    pub clients: StrMap<ClientConfig>,
    /// provider id -> provider.
    pub providers: StrMap<ProviderConfig>,
}

impl ClientsConfig {
    /// Whether `id` names a client whose provider is configured.
    pub open spec fn routes(&self, id: Seq<char>) -> bool {
        self.clients@.contains_key(id) && self.providers@.contains_key(self.clients@[id].provider@)
    }

    /// The provider that the client `id` is routed to (meaningful when `routes(id)`).
    pub open spec fn provider_of(&self, id: Seq<char>) -> ProviderConfig {
        self.providers@[self.clients@[id].provider@]
    }

    /// No clients and no providers.
    pub fn new() -> (r: Self)
        ensures
            r.clients@ == Map::<Seq<char>, ClientConfig>::empty(),
            r.providers@ == Map::<Seq<char>, ProviderConfig>::empty(),
    {
        ClientsConfig { clients: StrMap::new(), providers: StrMap::new() }
    }

    /// The client with id `client_id`.
    pub fn get_client(&self, client_id: &str) -> (r: Option<&ClientConfig>)
        ensures
            match r {
                Some(c) => self.clients@.contains_key(client_id@) && *c == self.clients@[client_id@],
                None => !self.clients@.contains_key(client_id@),
            },
    {
        self.clients.get(client_id)
    }

    /// The provider of the client `client_id`: none when the client is
    /// unknown or its provider is not configured.
    pub fn get_client_provider(&self, client_id: &str) -> (r: Option<&ProviderConfig>)
        ensures
            match r {
                Some(p) => self.routes(client_id@) && *p == self.provider_of(client_id@),
                None => !self.routes(client_id@),
            },
    {
        match self.clients.get(client_id) {
            Some(c) => self.providers.get(c.provider.as_str()),
            None => None,
        }
    }

    /// The base URL the client `client_id` is routed to.
    pub fn get_client_base_url(&self, client_id: &str) -> (r: Option<&str>)
        ensures
            match r {
                Some(u) => self.routes(client_id@) && u@ == self.provider_of(client_id@).base_url@,
                None => !self.routes(client_id@),
            },
    {
        match self.get_client_provider(client_id) {
            Some(p) => Some(p.base_url.as_str()),
            None => None,
        }
    }

    /// Whether `client_id` is a configured client.
    pub fn has_client(&self, client_id: &str) -> (r: bool)
        ensures
            r == self.clients@.contains_key(client_id@),
    {
        self.clients.contains_key(client_id)
    }

    /// The configured client ids, each once.
    pub fn client_ids(&self) -> (ids: Vec<String>)
        ensures
            forall|i: int| 0 <= i < ids.len() ==> self.clients@.contains_key(#[trigger] ids@[i]@),
            forall|k: Seq<char>| #[trigger] self.clients@.contains_key(k) ==> exists|i: int| 0 <= i < ids.len() && ids@[i]@ == k,
            forall|i: int, j: int| 0 <= i < ids.len() && 0 <= j < ids.len() && i != j ==> #[trigger] ids@[i]@ != #[trigger] ids@[j]@,
    {
        self.clients.keys()
    }

    /// Whether any client is configured.
    pub fn is_configured(&self) -> (r: bool)
        ensures
            r == (self.clients@ != Map::<Seq<char>, ClientConfig>::empty()),
    {
        !self.clients.is_empty()
    }

    /// The API format of the client's provider.
    pub fn get_client_api_format(&self, client_id: &str) -> (r: Option<&ApiFormat>)
        ensures
            match r {
                Some(f) => self.routes(client_id@) && *f == self.provider_of(client_id@).api_format,
                None => !self.routes(client_id@),
            },
    {
        match self.get_client_provider(client_id) {
            Some(p) => Some(&p.api_format),
            None => None,
        }
    }

    /// The effective API path of the client's provider.
    pub fn get_client_api_path(&self, client_id: &str) -> (r: Option<&str>)
        ensures
            match r {
                Some(path) => self.routes(client_id@) && path@ == effective_path(self.provider_of(client_id@)),
                None => !self.routes(client_id@),
            },
    {
        match self.get_client_provider(client_id) {
            Some(p) => Some(p.effective_api_path()),
            None => None,
        }
    }

    /// The effective count_tokens handling of the client's provider.
    pub fn get_client_count_tokens(&self, client_id: &str) -> (r: Option<CountTokensHandling>)
        ensures
            match r {
                Some(c) => self.routes(client_id@) && c == effective_handling(self.provider_of(client_id@)),
                None => !self.routes(client_id@),
            },
    {
        match self.get_client_provider(client_id) {
            Some(p) => Some(p.effective_count_tokens()),
            None => None,
        }
    }

    /// The authentication for a client: its own override if set, else its
    /// provider's (when the provider is configured); none otherwise.
    pub fn get_effective_auth(&self, client_id: &str) -> (r: Option<&ProviderAuth>)
        ensures
            !self.clients@.contains_key(client_id@) ==> r is None,
            self.clients@.contains_key(client_id@) ==> {
                let c = self.clients@[client_id@];
                if c.auth is Some {
                    r is Some && *r->0 == c.auth->0
                } else if self.providers@.contains_key(c.provider@)
                    && self.providers@[c.provider@].auth is Some {
                    r is Some && *r->0 == self.providers@[c.provider@].auth->0
                } else {
                    r is None
                }
            },
    {
        let client = match self.get_client(client_id) {
            Some(c) => c,
            None => return None,
        };
        match &client.auth {
            Some(a) => return Some(a),
            None => {},
        }
        match self.providers.get(client.provider.as_str()) {
            Some(p) => match &p.auth {
                Some(a) => Some(a),
                None => None,
            },
            None => None,
        }
    }

    /// The model mapping of the client's provider, when it is not empty.
    pub fn get_client_model_mapping(&self, client_id: &str) -> (r: Option<&StrMap<String>>)
        ensures
            match r {
                Some(m) => self.routes(client_id@)
                    && *m == self.provider_of(client_id@).model_mapping
                    && m@ != Map::<Seq<char>, String>::empty(),
                None => !self.routes(client_id@)
                    || self.provider_of(client_id@).model_mapping@ == Map::<Seq<char>, String>::empty(),
            },
    {
        match self.get_client_provider(client_id) {
            Some(p) => {
                if p.model_mapping.is_empty() {
                    None
                } else {
                    Some(&p.model_mapping)
                }
            },
            None => None,
        }
    }
}

} // verus!
