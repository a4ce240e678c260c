use aspy::routing::{ApiFormat, ClientConfig, ClientsConfig, CountTokensHandling, ProviderConfig};
use aspy::strmap::StrMap;

fn provider(base_url: &str, api_format: ApiFormat, api_path: Option<&str>, count_tokens: Option<CountTokensHandling>) -> ProviderConfig {
    ProviderConfig {
        base_url: base_url.to_string(),
        name: None,
        api_format,
        api_path: api_path.map(|p| p.to_string()),
        auth: None,
        count_tokens,
        model_mapping: StrMap::new(),
    }
}

fn client(name: &str, provider: &str) -> ClientConfig {
    ClientConfig { name: name.to_string(), provider: provider.to_string(), tags: vec![], auth: None }
}

#[test]
fn test_provider_effective_api_path_default_anthropic() {
    let provider = provider("https://api.anthropic.com", ApiFormat::Anthropic, None, None);
    assert_eq!(provider.effective_api_path(), "/v1/messages");
}

#[test]
fn test_provider_effective_api_path_default_openai() {
    let provider = provider("https://openrouter.ai/api/v1", ApiFormat::Openai, None, None);
    assert_eq!(provider.effective_api_path(), "/v1/chat/completions");
}

#[test]
fn test_provider_effective_api_path_custom_overrides_default() {
    let provider = provider("https://api.z.ai/api/coding/paas/v4", ApiFormat::Openai, Some("/chat/completions"), None);
    assert_eq!(provider.effective_api_path(), "/chat/completions");
}

#[test]
fn test_provider_effective_api_path_custom_with_anthropic_format() {
    let provider = provider("https://custom.example.com/api/v2", ApiFormat::Anthropic, Some("/messages"), None);
    assert_eq!(provider.effective_api_path(), "/messages");
}

#[test]
fn test_clients_config_get_client_api_path() {
    let mut clients = StrMap::new();
    clients.insert("zai".to_string(), client("Z.AI", "zai"));
    let mut providers = StrMap::new();
    providers.insert(
        "zai".to_string(),
        provider("https://api.z.ai/api/coding/paas/v4", ApiFormat::Openai, Some("/chat/completions"), None),
    );
    let config = ClientsConfig { clients, providers };

    assert_eq!(config.get_client_api_path("zai"), Some("/chat/completions"));
    assert_eq!(config.get_client_api_path("unknown"), None);
}

#[test]
fn test_provider_effective_count_tokens_default_anthropic() {
    let provider = provider("https://api.anthropic.com", ApiFormat::Anthropic, None, None);
    assert_eq!(provider.effective_count_tokens(), CountTokensHandling::Passthrough);
}

#[test]
fn test_provider_effective_count_tokens_default_openai() {
    let provider = provider("https://openrouter.ai/api/v1", ApiFormat::Openai, None, None);
    assert_eq!(provider.effective_count_tokens(), CountTokensHandling::Synthetic);
}

#[test]
fn test_provider_effective_count_tokens_explicit_override() {
    let provider = provider("https://openrouter.ai/api/v1", ApiFormat::Openai, None, Some(CountTokensHandling::Dedupe));
    assert_eq!(provider.effective_count_tokens(), CountTokensHandling::Dedupe);
}

#[test]
fn test_clients_config_get_client_count_tokens() {
    let mut clients = StrMap::new();
    clients.insert("anthropic-client".to_string(), client("Anthropic", "anthropic"));
    clients.insert("openai-client".to_string(), client("OpenAI", "openai"));
    let mut providers = StrMap::new();
    providers.insert("anthropic".to_string(), provider("https://api.anthropic.com", ApiFormat::Anthropic, None, None));
    providers.insert("openai".to_string(), provider("https://openrouter.ai/api/v1", ApiFormat::Openai, None, None));
    let config = ClientsConfig { clients, providers };

    assert_eq!(config.get_client_count_tokens("anthropic-client"), Some(CountTokensHandling::Passthrough));
    assert_eq!(config.get_client_count_tokens("openai-client"), Some(CountTokensHandling::Synthetic));
    assert_eq!(config.get_client_count_tokens("unknown"), None);
}

#[test]
fn test_count_tokens_handling_serialization() {
    assert_eq!(CountTokensHandling::Passthrough.as_str(), "passthrough");
    assert_eq!(CountTokensHandling::Synthetic.as_str(), "synthetic");
    assert_eq!(CountTokensHandling::Dedupe.as_str(), "dedupe");
}

#[test]
fn display_name_falls_back_to_the_host() {
    let mut p = provider("https://api.anthropic.com", ApiFormat::Anthropic, None, None);
    assert_eq!(p.display_name(), "api.anthropic.com");
    p.base_url = "http://localhost:8080/v1".to_string();
    assert_eq!(p.display_name(), "localhost");
    p.base_url = "https://openrouter.ai/api/v1".to_string();
    assert_eq!(p.display_name(), "openrouter.ai");
    p.base_url = "example.com".to_string();
    assert_eq!(p.display_name(), "example.com");
    p.name = Some("Z.AI".to_string());
    assert_eq!(p.display_name(), "Z.AI");
}

#[test]
fn format_names_read_back() {
    for f in [ApiFormat::Anthropic, ApiFormat::Openai] {
        assert_eq!(ApiFormat::from_name(f.as_str()), Some(f));
    }
    assert_eq!(ApiFormat::from_name("OpenAI"), None);
    assert_eq!(ApiFormat::from_name(""), None);
}
