use open_provider::catalog::{model_lines, provider_for_slug, read_raw, ModelLine};
use open_provider::config::Config;
use open_provider::pages::{checks_page, dashboard_page, models_page};
use open_provider::providers::{CheckEntry, ModelId, ProviderStatus};

fn status(name: &str, healthy: bool) -> ProviderStatus {
    ProviderStatus {
        name: name.into(),
        base_url: "https://x".into(),
        requires_key: !healthy,
        is_healthy: healthy,
        last_check_at: Some("2024-01-01T00:00:00+00:00".into()),
        response_time_ms: Some(120),
        model_count: if healthy { Some(7) } else { None },
        error_message: if healthy { None } else { Some("HTTP 401: denied".into()) },
    }
}

fn check(name: &str, ok: bool) -> CheckEntry {
    CheckEntry {
        provider_name: name.into(),
        checked_at: "t1".into(),
        is_healthy: ok,
        response_time_ms: Some(12),
        model_count: if ok { Some(3) } else { None },
        error_message: if ok { None } else { Some("boom".into()) },
    }
}

#[test]
fn dashboard_shows_enabled_providers_and_checks() {
    let cfg = Config::example();
    let html = dashboard_page(
        vec![status("OpenAI", true), status("OpenCode Zen", true), status("Kilo AI", false)],
        &cfg,
        &vec![check("Kilo AI", false), check("Ollama", true)],
    );
    assert!(html.starts_with("<!DOCTYPE html>"));
    assert!(html.contains("Monitoring 2 providers"));
    assert!(!html.contains(">OpenAI<"));
    assert!(html.contains(r#"<a href="/provider/opencode-zen" class="card"><div class="card-top"><span class="card-name">OpenCode Zen</span><span class="card-status healthy"></span></div><div class="card-details"><span>7 models · 120ms</span><span>Checked: 2024-01-01T00:00:00+00:00</span></div></a>"#));
    assert!(html.contains(r#"<span class="card-status down"></span></div><div class="card-details"><span>— models · 120ms</span>"#));
    assert!(html.contains(r#"<div class="card-error" title="HTTP 401: denied">HTTP 401: denied</div></a>"#));
    assert!(html.contains("API key</span>"));
    assert!(html.contains(r#"<tr class="check-fail"><td>Kilo AI</td><td>t1</td>"#));
    assert!(html.contains(r#"<td>12ms</td><td>—</td><td class="error-cell" title="boom">boom</td></tr>"#));
    assert!(html.contains(r#"<td>12ms</td><td>3</td><td class="error-cell" title=""></td></tr>"#));
    assert!(html.contains(":root{--background:240 10% 3.9%;"));
    assert!(html.ends_with("</body></html>"));
}

#[test]
fn checks_page_lists_every_check() {
    let html = checks_page(&vec![check("A", true), check("B", false)]);
    assert!(html.contains("<h1>All Checks</h1>"));
    assert_eq!(html.matches("<tr class=\"check-").count(), 2);
    assert!(html.contains(">Pass</span>"));
    assert!(html.contains(">Fail</span>"));
    let empty = checks_page(&vec![]);
    assert!(empty.contains("<tbody></tbody>"));
}

#[test]
fn models_page_shows_free_models_first() {
    let cfg = Config::example();
    let statuses = vec![status("Anthropic", true)];
    let lines = vec![
        ModelLine { id: "paid\"1".into(), raw: read_raw(&Some(r#"{"id":"paid","context_length":8}"#.into())), is_free: false },
        ModelLine { id: "free-1".into(), raw: read_raw(&Some(r#"{"id":"free-1","context_length":4,"top_p":true}"#.into())), is_free: true },
    ];
    let html = models_page("Anthropic", &statuses, &cfg, lines);
    assert!(html.contains("<title>Anthropic — Models — Open Provider</title>"));
    assert!(html.contains(r#"<span class="status healthy"></span>"#));
    assert!(html.contains("<span>2 models · 120ms</span>"));
    assert!(html.contains(r#"href="https://api.anthropic.com" target="_blank""#));
    assert!(html.contains("ANTHROPIC_API_KEY Required</span>"));
    assert!(html.contains(r#"copyId('https://api.anthropic.com/v1/models?limit=1000',event)"#));
    assert!(html.contains(r#"Free<span class="tab-count">1</span>"#));
    assert!(html.contains("<tr><th>Model ID</th><th>context length</th><th>top p</th></tr>"));
    let free_at = html.find("tab-free").unwrap();
    let paid_at = html.find("tab-paid").unwrap();
    assert!(free_at < paid_at);
    assert!(html.contains(r#"<tr class="tab-free"><td><code class="mid" onclick="copyId('free-1',event)" title="Click to copy">free-1</code><span class="free-badge">FREE</span></td><td class="col-muted">4</td><td class="col-muted">true</td></tr>"#));
    assert!(html.contains(r#"copyId('paid&quot;1',event)"#));
}

#[test]
fn models_page_of_unknown_provider() {
    let cfg = Config::example();
    let html = models_page("nobody", &vec![], &cfg, vec![]);
    assert!(html.contains(r#"<span class="status down"></span>"#));
    assert!(html.contains("<span>0 models · —</span>"));
    assert!(html.contains(r##"<a class="provider-link" href="#""##));
    assert!(html.contains(r#"<div class="endpoint-row"></div>"#));
}

#[test]
fn models_page_is_made_from_stored_data() {
    let mut cfg = Config::example();
    cfg.providers[1].free_rules.zero_pricing = true;
    let statuses = vec![status("Anthropic", true)];
    let models = vec![
        ModelId { id: "a".into(), created: None, owned_by: None, raw_data: Some(r#"{"pricing":{"p":0,"q":"0.0"}}"#.into()) },
        ModelId { id: "b".into(), created: None, owned_by: None, raw_data: Some(r#"{"pricing":{"p":"-1"}}"#.into()) },
    ];
    let name = provider_for_slug(&statuses, "anthropic");
    let first = models_page(&name, &statuses, &cfg, model_lines(&name, &cfg, &models));
    let second = models_page(&name, &statuses, &cfg, model_lines(&name, &cfg, &models));
    assert_eq!(first, second);
    assert!(first.contains(r#"Free<span class="tab-count">1</span>"#));
    assert!(first.contains(r#"<tr class="tab-free"><td><code class="mid" onclick="copyId('a',event)""#));
    assert!(first.contains(r#"<tr class="tab-paid"><td><code class="mid" onclick="copyId('b',event)""#));
}
