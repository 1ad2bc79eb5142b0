use open_provider::config::{default_check_interval_minutes, default_db_path, Config, FreeRules};

#[test]
fn default_paths_and_interval() {
    assert_eq!(default_db_path(), "open-provider.db");
    assert_eq!(default_check_interval_minutes(), 15);
}

#[test]
fn free_rules_default_to_none() {
    let r = FreeRules::default();
    assert!(!r.id_suffix_colon_free);
    assert!(!r.id_contains_dash_free);
    assert!(!r.id_contains_free);
    assert!(!r.field_is_free);
    assert!(!r.zero_pricing);
}

#[test]
fn example_lists_the_known_providers() {
    let cfg = Config::example();
    assert_eq!(cfg.database_path, "open-provider.db");
    assert_eq!(cfg.check_interval_minutes, 15);
    assert_eq!(cfg.providers.len(), 31);
    let first = &cfg.providers[0];
    assert_eq!(first.name, "OpenAI");
    assert_eq!(first.base_url, "https://api.openai.com");
    assert_eq!(first.models_endpoint, "/v1/models");
    assert_eq!(first.api_key_env.as_deref(), Some("OPENAI_API_KEY"));
    assert!(first.disabled);
    let google = cfg.providers.iter().find(|p| p.name == "Google").unwrap();
    assert_eq!(google.models_endpoint, "/v1beta/models?key={API_KEY}");
    let router = cfg.providers.iter().find(|p| p.name == "OpenRouter").unwrap();
    assert!(!router.disabled);
    assert!(router.api_key_env.is_none());
    let zen = cfg.providers.iter().find(|p| p.name == "OpenCode Zen").unwrap();
    assert_eq!(zen.headers, vec![("Accept".to_string(), "application/json".to_string())]);
    let copilot = cfg.providers.iter().find(|p| p.name == "GitHub Copilot").unwrap();
    assert_eq!(copilot.headers.len(), 3);
    assert_eq!(copilot.headers[0].0, "editor-version");
    assert_eq!(copilot.headers[0].1, "vscode/1.107.1");
    let last = &cfg.providers[30];
    assert_eq!(last.name, "Codex");
    assert_eq!(last.models_endpoint, "/backend-api/codex/models?client_version=1.0.0");
    for p in &cfg.providers {
        let r = p.free_rules;
        assert!(!(r.id_suffix_colon_free || r.id_contains_dash_free || r.id_contains_free || r.field_is_free || r.zero_pricing));
    }
    let enabled: Vec<&str> = cfg.providers.iter().filter(|p| !p.disabled).map(|p| p.name.as_str()).collect();
    assert_eq!(
        enabled,
        vec![
            "OpenRouter",
            "OpenCode Zen",
            "OpenCode Zen Go",
            "CommandCode",
            "Vercel AI Gateway",
            "NVIDIA NIM",
            "Chutes",
            "Ollama",
            "BluesMinds",
            "Kilo AI"
        ]
    );
}

#[test]
fn example_names_are_distinct() {
    let cfg = Config::example();
    for (i, a) in cfg.providers.iter().enumerate() {
        for b in cfg.providers.iter().skip(i + 1) {
            assert_ne!(a.name, b.name);
        }
    }
}
