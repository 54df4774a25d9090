use copilot_provider::catalog::{
    apply, ensure_enum, ensure_tier, token_sentinel, CatalogModelConfig, RootConfig, SDK_BASE_URL,
    TOKEN_ENV,
};
use copilot_provider::PROVIDER_ID;

#[test]
fn overlay_makes_existing_auth_provider_callable_through_sdk_runtime() {
    let mut config = RootConfig::default();
    apply(&mut config);

    assert_eq!(config.provider_base_url.get(PROVIDER_ID).unwrap(), SDK_BASE_URL);
    let provider = config.model_catalog.providers.get(PROVIDER_ID).unwrap();
    assert_eq!(provider.runtime_provider, PROVIDER_ID);
    assert_eq!(provider.api_style, "copilot_sdk");
    assert_eq!(provider.models.get("thinking").unwrap()[0].id(), "auto");
}

#[test]
fn overlay_writes_the_whole_entry() {
    let mut config = RootConfig::default();
    apply(&mut config);

    assert_eq!(PROVIDER_ID, "github-copilot");
    assert_eq!(SDK_BASE_URL, "sdk://github-copilot");
    assert_eq!(TOKEN_ENV, "COPILOT_GITHUB_TOKEN");
    assert_eq!(config.model_catalog.tiers, vec!["thinking", "fast"]);
    assert_eq!(config.provider_enums.api_styles, vec!["copilot_sdk"]);
    assert_eq!(config.provider_enums.auth_methods, vec!["local_cli_token"]);
    assert_eq!(config.provider_enums.capabilities, vec!["llm.streaming"]);

    let provider = config.model_catalog.providers.get(PROVIDER_ID).unwrap();
    assert_eq!(provider.display_name, "GitHub Copilot");
    assert_eq!(provider.base_url, "sdk://github-copilot");
    assert_eq!(provider.token_env.as_deref(), Some("COPILOT_GITHUB_TOKEN"));
    assert_eq!(
        provider.env,
        vec!["COPILOT_GITHUB_TOKEN", "GH_TOKEN", "GITHUB_TOKEN", "COPILOT_CLI_PATH"]
    );
    assert_eq!(provider.domains, vec!["llm"]);
    assert_eq!(provider.capabilities, vec!["llm.chat", "llm.tool_call", "llm.streaming"]);
    assert_eq!(provider.auth_methods, vec!["local_cli_token", "api_key"]);
    assert_eq!(provider.api_docs.as_deref(), Some("https://github.com/github/copilot-sdk"));
    assert_eq!(provider.status.as_deref(), Some("configured"));
    for tier in ["thinking", "fast"] {
        let models = provider.models.get(tier).unwrap();
        assert_eq!(models.len(), 1);
        let CatalogModelConfig::Detailed(model) = &models[0];
        assert_eq!(model.id, "auto");
        assert!(model.visible);
        assert_eq!(model.name, "Copilot automatic model");
        assert_eq!(model.family, "github-copilot");
        assert!(model.reasoning);
        assert!(!model.temperature);
        assert!(model.tool_call);
    }
    assert!(provider.models.get("slow").is_none());
}

#[test]
fn overlay_applied_twice_adds_nothing() {
    let mut config = RootConfig::default();
    apply(&mut config);
    apply(&mut config);

    assert_eq!(config.model_catalog.tiers, vec!["thinking", "fast"]);
    assert_eq!(config.provider_enums.api_styles, vec!["copilot_sdk"]);
    assert_eq!(config.provider_enums.auth_methods, vec!["local_cli_token"]);
    assert_eq!(config.provider_enums.capabilities, vec!["llm.streaming"]);
    assert_eq!(config.model_catalog.providers.len(), 1);
    assert_eq!(config.provider_base_url.len(), 1);
}

#[test]
fn overlay_leaves_other_providers_and_words() {
    let mut config = RootConfig::default();
    config.provider_base_url.insert("other".to_string(), "https://other".to_string());
    config.model_catalog.tiers = vec!["fast".to_string(), "slow".to_string()];
    config.provider_enums.api_styles.push("openai".to_string());
    apply(&mut config);

    assert_eq!(config.provider_base_url.get("other").unwrap(), "https://other");
    assert_eq!(config.model_catalog.tiers, vec!["fast", "slow", "thinking"]);
    assert_eq!(config.provider_enums.api_styles, vec!["openai", "copilot_sdk"]);
}

#[test]
fn overlay_replaces_an_older_address() {
    let mut config = RootConfig::default();
    config.provider_base_url.insert(PROVIDER_ID.to_string(), "https://old".to_string());
    apply(&mut config);

    assert_eq!(config.provider_base_url.get(PROVIDER_ID).unwrap(), "sdk://github-copilot");
}

#[test]
fn words_are_added_once() {
    let mut words = vec!["a".to_string(), "b".to_string()];
    ensure_enum(&mut words, "b");
    assert_eq!(words, vec!["a", "b"]);
    ensure_enum(&mut words, "B");
    assert_eq!(words, vec!["a", "b", "B"]);

    let mut config = RootConfig::default();
    ensure_tier(&mut config.model_catalog, "x");
    ensure_tier(&mut config.model_catalog, "x");
    assert_eq!(config.model_catalog.tiers, vec!["x"]);
}

#[test]
fn empty_token_stands_for_a_login() {
    assert_eq!(token_sentinel(true), None);
    assert_eq!(token_sentinel(false), Some(""));
}
