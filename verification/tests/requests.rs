use open_provider::config::{Config, FreeRules, ProviderConfig};
use open_provider::providers::{plan_request, token_file_to_read};

fn provider(name: &str, base: &str, endpoint: &str, key: Option<&str>) -> ProviderConfig {
    ProviderConfig {
        name: name.to_string(),
        base_url: base.to_string(),
        models_endpoint: endpoint.to_string(),
        api_key_env: key.map(|k| k.to_string()),
        headers: vec![],
        disabled: false,
        free_rules: FreeRules::default(),
    }
}

fn pairs(h: &[(String, String)]) -> Vec<(&str, &str)> {
    h.iter().map(|(a, b)| (a.as_str(), b.as_str())).collect()
}

#[test]
fn keyless_provider_is_asked_as_configured() {
    let cfg = Config::example();
    let zen = cfg.providers.iter().find(|p| p.name == "OpenCode Zen").unwrap();
    let plan = plan_request(zen, &None, &None, true);
    assert_eq!(plan.url, "https://opencode.ai/zen/v1/models");
    assert_eq!(pairs(&plan.headers), vec![("Accept", "application/json")]);
    assert_eq!(token_file_to_read(zen, &None), None);
}

#[test]
fn key_goes_into_the_address_and_the_bearer_header() {
    let g = provider("Google", "https://g.example", "/v1beta/models?key={API_KEY}", Some("GOOGLE_API_KEY"));
    let plan = plan_request(&g, &Some("K1".to_string()), &None, true);
    assert_eq!(plan.url, "https://g.example/v1beta/models?key=K1");
    assert_eq!(pairs(&plan.headers), vec![("Authorization", "Bearer K1")]);
}

#[test]
fn missing_key_leaves_the_address_empty_and_reads_the_token_file() {
    let g = provider("Google", "https://g.example", "/v1beta/models?key={API_KEY}", Some("GOOGLE_API_KEY"));
    assert_eq!(
        token_file_to_read(&g, &None),
        Some("/home/test/google_api_key_token.txt".to_string())
    );
    let plan = plan_request(&g, &None, &Some("  tok \n".to_string()), true);
    assert_eq!(plan.url, "https://g.example/v1beta/models?key=");
    assert_eq!(pairs(&plan.headers), vec![("Authorization", "Bearer tok")]);
    let bare = plan_request(&g, &None, &None, true);
    assert!(bare.headers.is_empty());
}

#[test]
fn token_file_not_read_when_key_is_in_environment() {
    let p = provider("Groq", "https://api.groq.com", "/openai/v1/models", Some("GROQ_API_KEY"));
    assert_eq!(token_file_to_read(&p, &Some("k".to_string())), None);
    assert_eq!(
        token_file_to_read(&p, &None),
        Some("/home/test/groq_api_key_token.txt".to_string())
    );
}

#[test]
fn anthropic_key_header_only_for_the_count_check() {
    let a = provider("Anthropic", "https://api.anthropic.com", "/v1/models?limit=1000", Some("ANTHROPIC_API_KEY"));
    let count = plan_request(&a, &Some("sk".to_string()), &None, true);
    assert_eq!(count.url, "https://api.anthropic.com/v1/models?limit=1000");
    assert_eq!(
        pairs(&count.headers),
        vec![("Authorization", "Bearer sk"), ("x-api-key", "sk")]
    );
    let detail = plan_request(&a, &Some("sk".to_string()), &None, false);
    assert_eq!(pairs(&detail.headers), vec![("Authorization", "Bearer sk")]);
    let from_file = plan_request(&a, &None, &Some("ft".to_string()), true);
    assert_eq!(pairs(&from_file.headers), vec![("Authorization", "Bearer ft")]);
}

#[test]
fn own_headers_come_first() {
    let cfg = Config::example();
    let c = cfg.providers.iter().find(|p| p.name == "GitHub Copilot").unwrap();
    let plan = plan_request(c, &Some("gh".to_string()), &None, true);
    assert_eq!(plan.url, "https://api.githubcopilot.com/models");
    assert_eq!(
        pairs(&plan.headers),
        vec![
            ("editor-version", "vscode/1.107.1"),
            ("Copilot-Integration-Id", "vscode-chat"),
            ("editor-plugin-version", "copilot-chat/0.26.7"),
            ("Authorization", "Bearer gh"),
        ]
    );
}
