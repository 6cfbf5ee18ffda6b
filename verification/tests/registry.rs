use provider_registry::adapter::{ProviderKind, TokenStore};
use provider_registry::config::{AuthType, ProviderConfig};
use provider_registry::error::ProviderError;
use provider_registry::files::LocalFiles;
use provider_registry::registry::ProviderRegistry;

fn entry(name: &str, provider_type: &str, models: &[&str]) -> ProviderConfig {
    ProviderConfig {
        name: name.to_string(),
        provider_type: provider_type.to_string(),
        auth_type: AuthType::ApiKey,
        api_key: Some(format!("key-of-{}", name)),
        api_key_path: None,
        base_url: None,
        models: models.iter().map(|m| m.to_string()).collect(),
        oauth_provider: None,
        enabled: None,
    }
}

fn no_files() -> LocalFiles {
    LocalFiles::new(Some("/home/user".to_string()))
}

#[test]
fn test_empty_registry() {
    let registry = ProviderRegistry::new();
    assert!(registry.list_models().is_empty());
    assert!(registry.list_providers().is_empty());
}

#[test]
fn test_get_provider_for_model_not_found() {
    let registry = ProviderRegistry::new();
    let result = registry.get_provider_for_model("gpt-4");
    assert!(result.is_err());
}

#[test]
fn default_registry_is_empty() {
    let registry = ProviderRegistry::default();
    assert!(registry.list_models().is_empty());
    assert!(registry.list_providers().is_empty());
    assert!(registry.get_provider("openai").is_none());
}

#[test]
fn empty_list_builds_empty_registry() {
    let registry = ProviderRegistry::from_configs(&[], &no_files(), None).unwrap();
    assert!(registry.list_models().is_empty());
    assert!(registry.list_providers().is_empty());
}

#[test]
fn empty_registry_names_the_model_it_cannot_serve() {
    let registry = ProviderRegistry::from_configs(&[], &no_files(), None).unwrap();
    assert_eq!(
        registry.get_provider_for_model("gpt-4").unwrap_err(),
        ProviderError::ModelNotSupported("gpt-4".to_string())
    );
    assert_eq!(
        registry.get_provider_for_model("").unwrap_err(),
        ProviderError::ModelNotSupported(String::new())
    );
    assert!(registry.get_provider("gpt-4").is_none());
}

#[test]
fn disabled_entry_is_passed_over_whatever_it_declares() {
    let mut broken = entry("broken", "no-such-family", &["gpt-4"]);
    broken.api_key = None;
    broken.api_key_path = Some("~/missing.json".to_string());
    broken.enabled = Some(false);
    let configs = vec![entry("a", "openai", &[]), broken, entry("b", "anthropic", &[])];
    let registry = ProviderRegistry::from_configs(&configs, &LocalFiles::new(None), None).unwrap();
    assert_eq!(registry.list_providers(), vec!["a".to_string(), "b".to_string()]);
    assert!(registry.get_provider("broken").is_none());
    assert!(registry.get_provider_for_model("gpt-4").is_err());
}

#[test]
fn entry_that_says_enabled_is_registered() {
    let mut config = entry("a", "openai", &[]);
    config.enabled = Some(true);
    let registry = ProviderRegistry::from_configs(&[config], &no_files(), None).unwrap();
    assert_eq!(registry.list_providers(), vec!["a".to_string()]);
}

#[test]
fn unknown_provider_type_fails_the_whole_build() {
    let configs = vec![
        entry("a", "openai", &["gpt-4"]),
        entry("b", "mystery", &[]),
        entry("c", "anthropic", &[]),
    ];
    let failure = ProviderRegistry::from_configs(&configs, &no_files(), None).unwrap_err();
    assert_eq!(
        failure,
        ProviderError::ConfigError("Unknown provider type: mystery".to_string())
    );
}

#[test]
fn unknown_provider_type_is_told_from_its_neighbours() {
    for tag in ["OpenAI", "openai ", "", "open-ai", "z-ai", "kimi_coding", "github_copilot"] {
        let failure =
            ProviderRegistry::from_configs(&[entry("a", tag, &[])], &no_files(), None).unwrap_err();
        assert_eq!(
            failure,
            ProviderError::ConfigError(format!("Unknown provider type: {}", tag))
        );
    }
}

#[test]
fn credential_failure_comes_before_the_unknown_type_of_the_same_entry() {
    let mut config = entry("a", "mystery", &[]);
    config.api_key = None;
    let failure = ProviderRegistry::from_configs(&[config], &no_files(), None).unwrap_err();
    assert_eq!(
        failure,
        ProviderError::ConfigError(
            "Provider 'a' requires api_key or api_key_path for ApiKey auth".to_string()
        )
    );
}

#[test]
fn first_failure_in_the_list_is_the_one_reported() {
    let mut keyless = entry("keyless", "openai", &[]);
    keyless.api_key = Some("   ".to_string());
    let configs = vec![entry("a", "openai", &[]), keyless, entry("b", "mystery", &[])];
    let failure = ProviderRegistry::from_configs(&configs, &no_files(), None).unwrap_err();
    assert_eq!(
        failure,
        ProviderError::ConfigError(
            "Provider 'keyless' requires api_key or api_key_path for ApiKey auth".to_string()
        )
    );
}

#[test]
fn model_is_served_by_the_backend_that_supports_it() {
    let configs = vec![entry("a", "anthropic", &["haiku"]), entry("b", "openai", &["gpt-4"])];
    let registry = ProviderRegistry::from_configs(&configs, &no_files(), None).unwrap();
    let handle = registry.get_provider_for_model("gpt-4").unwrap();
    assert_eq!(handle.name(), "b");
    assert!(handle.supports_model("gpt-4"));
    assert!(!registry.get_provider("a").unwrap().supports_model("gpt-4"));
    assert_eq!(
        registry.get_provider_for_model("unknown-model").unwrap_err(),
        ProviderError::ModelNotSupported("unknown-model".to_string())
    );
    assert!(registry.list_models().is_empty());
}

#[test]
fn first_registered_backend_wins_a_model_that_several_support() {
    let configs = vec![
        entry("a", "openrouter", &["m1"]),
        entry("b", "groq", &["shared", "m2"]),
        entry("c", "together", &["shared"]),
    ];
    let registry = ProviderRegistry::from_configs(&configs, &no_files(), None).unwrap();
    assert_eq!(registry.get_provider_for_model("shared").unwrap().name(), "b");
    assert_eq!(registry.get_provider_for_model("m2").unwrap().name(), "b");
    assert_eq!(registry.get_provider_for_model("m1").unwrap().name(), "a");
}

#[test]
fn model_names_are_compared_exactly() {
    let registry =
        ProviderRegistry::from_configs(&[entry("a", "openai", &["gpt-4"])], &no_files(), None)
            .unwrap();
    assert!(registry.get_provider_for_model("gpt-4").is_ok());
    assert!(registry.get_provider_for_model("GPT-4").is_err());
    assert!(registry.get_provider_for_model("gpt-4 ").is_err());
    assert!(registry.get_provider_for_model("gpt-").is_err());
}

#[test]
fn lookup_failure_leaves_the_registry_usable() {
    let registry =
        ProviderRegistry::from_configs(&[entry("a", "openai", &["gpt-4"])], &no_files(), None)
            .unwrap();
    assert!(registry.get_provider_for_model("nope").is_err());
    assert_eq!(registry.get_provider_for_model("gpt-4").unwrap().name(), "a");
}

#[test]
fn providers_are_listed_in_the_order_of_the_list() {
    let configs =
        vec![entry("zeta", "openai", &[]), entry("alpha", "groq", &[]), entry("mid", "qwen", &[])];
    let registry = ProviderRegistry::from_configs(&configs, &no_files(), None).unwrap();
    assert_eq!(
        registry.list_providers(),
        vec!["zeta".to_string(), "alpha".to_string(), "mid".to_string()]
    );
}

#[test]
fn get_provider_finds_exact_names_only() {
    let registry =
        ProviderRegistry::from_configs(&[entry("main", "openai", &[])], &no_files(), None).unwrap();
    let handle = registry.get_provider("main").unwrap();
    assert_eq!(handle.name(), "main");
    assert_eq!(handle.api_key(), "key-of-main");
    assert!(registry.get_provider("Main").is_none());
    assert!(registry.get_provider("mai").is_none());
    assert!(registry.get_provider("").is_none());
}

#[test]
fn handles_to_one_backend_share_the_adapter() {
    let registry =
        ProviderRegistry::from_configs(&[entry("a", "openai", &["gpt-4"])], &no_files(), None)
            .unwrap();
    let by_name = registry.get_provider("a").unwrap();
    let by_model = registry.get_provider_for_model("gpt-4").unwrap();
    assert!(std::sync::Arc::ptr_eq(&by_name, &by_model));
    drop(registry);
    assert_eq!(by_name.name(), "a");
}

#[test]
fn later_entry_replaces_an_earlier_one_of_the_same_name() {
    let mut second = entry("a", "anthropic", &["haiku"]);
    second.api_key = Some("second".to_string());
    let configs = vec![entry("a", "openai", &["gpt-4"]), entry("b", "groq", &[]), second];
    let registry = ProviderRegistry::from_configs(&configs, &no_files(), None).unwrap();
    assert_eq!(registry.list_providers(), vec!["a".to_string(), "b".to_string()]);
    let handle = registry.get_provider("a").unwrap();
    assert_eq!(handle.kind(), ProviderKind::Anthropic);
    assert_eq!(handle.api_key(), "second");
    assert!(registry.get_provider_for_model("gpt-4").is_err());
    assert_eq!(registry.get_provider_for_model("haiku").unwrap().name(), "a");
}

#[test]
fn oauth_entry_is_constructed_with_its_oauth_reference() {
    let mut named = entry("work", "anthropic", &[]);
    named.auth_type = AuthType::OAuth;
    named.api_key = None;
    named.oauth_provider = Some("anthropic-max".to_string());
    let mut unnamed = entry("home", "openai", &[]);
    unnamed.auth_type = AuthType::OAuth;
    unnamed.api_key = Some("ignored".to_string());
    let store = TokenStore { label: "tokens".to_string() };
    let registry =
        ProviderRegistry::from_configs(&[named, unnamed], &LocalFiles::new(None), Some(store))
            .unwrap();
    let work = registry.get_provider("work").unwrap();
    assert_eq!(work.api_key(), "anthropic-max");
    assert_eq!(work.oauth_provider(), Some(&"anthropic-max".to_string()));
    assert_eq!(work.token_store(), Some(&TokenStore { label: "tokens".to_string() }));
    let home = registry.get_provider("home").unwrap();
    assert_eq!(home.api_key(), "home");
    assert_eq!(home.oauth_provider(), None);
}

#[test]
fn key_file_is_read_from_what_the_files_know() {
    let mut config = entry("a", "openai", &["gpt-4"]);
    config.api_key = None;
    config.api_key_path = Some("~/keys/openai.json".to_string());
    let mut files = LocalFiles::new(Some("/home/user".to_string()));
    files.record(
        "/home/user/keys/openai.json".to_string(),
        Ok("{\"auth\": {\"access_token\": \" sk-123 \"}}".to_string()),
    );
    let registry = ProviderRegistry::from_configs(&[config], &files, None).unwrap();
    assert_eq!(registry.get_provider("a").unwrap().api_key(), "sk-123");
}

#[test]
fn blank_key_file_fails_the_build() {
    let mut config = entry("a", "openai", &[]);
    config.api_key = None;
    config.api_key_path = Some("/etc/keys/a".to_string());
    let mut files = LocalFiles::new(None);
    files.record("/etc/keys/a".to_string(), Ok(" \n".to_string()));
    let failure = ProviderRegistry::from_configs(&[config], &files, None).unwrap_err();
    assert_eq!(
        failure,
        ProviderError::ConfigError(
            "Provider 'a' failed to read api_key from /etc/keys/a: Configuration error: \
             No api_key found in /etc/keys/a: the file is empty"
                .to_string()
        )
    );
}

#[test]
fn declared_endpoint_reaches_the_registered_adapter() {
    let mut preset = entry("p", "z.ai", &[]);
    preset.base_url = Some("http://proxy.local/zai".to_string());
    let mut generic = entry("g", "openai", &[]);
    generic.base_url = Some("http://proxy.local/openai".to_string());
    let configs = vec![preset, generic, entry("d", "openai", &[]), entry("n", "groq", &[])];
    let registry = ProviderRegistry::from_configs(&configs, &no_files(), None).unwrap();
    assert_eq!(
        registry.get_provider("p").unwrap().base_url(),
        Some(&"http://proxy.local/zai".to_string())
    );
    assert_eq!(
        registry.get_provider("g").unwrap().base_url(),
        Some(&"http://proxy.local/openai".to_string())
    );
    assert_eq!(
        registry.get_provider("d").unwrap().base_url(),
        Some(&"https://api.openai.com/v1".to_string())
    );
    assert_eq!(registry.get_provider("n").unwrap().base_url(), None);
}

#[test]
fn unreadable_key_file_fails_the_build() {
    let mut config = entry("a", "openai", &[]);
    config.api_key = None;
    config.api_key_path = Some("/etc/keys/a".to_string());
    let mut files = LocalFiles::new(None);
    files.record("/etc/keys/a".to_string(), Err("permission denied".to_string()));
    let failure =
        ProviderRegistry::from_configs(&[entry("b", "groq", &[]), config], &files, None)
            .unwrap_err();
    assert_eq!(
        failure,
        ProviderError::ConfigError(
            "Provider 'a' failed to read api_key from /etc/keys/a: Configuration error: \
             Failed to read /etc/keys/a: permission denied"
                .to_string()
        )
    );
}
