use open_provider::catalog::{
    is_free_model_with,
    api_address_of, cells_of, column_keys, count_free, escape_id, find_config, find_status,
    format_cell_value, is_disabled_name, is_free_model, label_of, make_slug, model_lines,
    order_free_first, prices_are_zero, is_zero_price, provider_for_slug, providers_to_check, read_raw,
    slug_of_lowercase, visible_statuses, ModelLine,
};
use open_provider::config::{Config, FreeRules, ProviderConfig};
use open_provider::text::is_zero_text;
use open_provider::json::Json;
use open_provider::providers::{ModelId, ProviderStatus};

fn s(v: &Vec<char>) -> String {
    v.iter().collect()
}

fn status(name: &str) -> ProviderStatus {
    ProviderStatus {
        name: name.into(),
        base_url: "https://x".into(),
        requires_key: false,
        is_healthy: true,
        last_check_at: None,
        response_time_ms: None,
        model_count: None,
        error_message: None,
    }
}

fn raw(text: &str) -> Json {
    read_raw(&Some(text.to_string()))
}

#[test]
fn slugs() {
    assert_eq!(make_slug("OpenCode Zen Go"), "opencode-zen-go");
    assert_eq!(make_slug("NVIDIA NIM"), "nvidia-nim");
    assert_eq!(make_slug("xAI"), "xai");
    assert_eq!(slug_of_lowercase("a b  c"), "a-b--c");
    for p in Config::example().providers {
        let slug = make_slug(&p.name);
        assert!(!slug.contains(' '));
        assert_eq!(slug.chars().count(), p.name.to_lowercase().chars().count());
    }
}

#[test]
fn cell_values_are_shown_as_they_are() {
    assert_eq!(format_cell_value("context_length", "128000"), "128000");
    assert_eq!(format_cell_value("name", ""), "");
}

#[test]
fn disabled_providers_are_hidden() {
    let cfg = Config::example();
    assert!(is_disabled_name(&cfg, "OpenAI"));
    assert!(!is_disabled_name(&cfg, "OpenRouter"));
    assert!(!is_disabled_name(&cfg, "Unknown"));
    let shown = visible_statuses(
        vec![status("OpenAI"), status("OpenRouter"), status("Unknown"), status("Groq"), status("Ollama")],
        &cfg,
    );
    let names: Vec<&str> = shown.iter().map(|s| s.name.as_str()).collect();
    assert_eq!(names, vec!["OpenRouter", "Unknown", "Ollama"]);
}

#[test]
fn enabled_providers_are_checked() {
    let cfg = Config::example();
    assert_eq!(providers_to_check(&cfg), vec![3, 10, 11, 12, 13, 14, 15, 16, 17, 18]);
}

#[test]
fn finding_by_name_and_slug() {
    let cfg = Config::example();
    assert_eq!(find_config(&cfg, "Ollama"), Some(16));
    assert_eq!(find_config(&cfg, "ollama"), None);
    let ss = vec![status("A b"), status("Kilo AI"), status("Kilo AI")];
    assert_eq!(find_status(&ss, "Kilo AI"), Some(1));
    assert_eq!(find_status(&ss, "None"), None);
    assert_eq!(provider_for_slug(&ss, "kilo-ai"), "Kilo AI");
    assert_eq!(provider_for_slug(&ss, "a-b"), "A b");
    assert_eq!(provider_for_slug(&ss, "missing"), "missing");
}

#[test]
fn card_links_lead_back_to_their_provider() {
    let ss: Vec<ProviderStatus> = Config::example().providers.iter().map(|p| status(&p.name)).collect();
    for st in &ss {
        assert_eq!(provider_for_slug(&ss, &make_slug(&st.name)), st.name);
    }
    let shared = vec![status("Open AI"), status("open ai")];
    assert_eq!(provider_for_slug(&shared, &make_slug("open ai")), "Open AI");
    assert_eq!(make_slug(&provider_for_slug(&shared, "open-ai")), "open-ai");
}

fn rules(a: bool, b: bool, c: bool, d: bool, e: bool) -> FreeRules {
    FreeRules { id_suffix_colon_free: a, id_contains_dash_free: b, id_contains_free: c, field_is_free: d, zero_pricing: e }
}

#[test]
fn free_rules_each_mark_a_model() {
    let null = Json::Null;
    assert!(is_free_model("m:free", &null, &rules(true, false, false, false, false)));
    assert!(!is_free_model("m:free", &null, &rules(false, false, false, false, false)));
    assert!(!is_free_model("m:free:x", &null, &rules(true, false, false, false, false)));
    assert!(is_free_model("m-free-x", &null, &rules(false, true, false, false, false)));
    assert!(!is_free_model("mfree", &null, &rules(false, true, false, false, false)));
    assert!(is_free_model("Model-FREE", &null, &rules(false, false, true, false, false)));
    assert!(!is_free_model("model", &null, &rules(false, false, true, false, false)));
    let flagged = raw(r#"{"isFree":true}"#);
    assert!(is_free_model("m", &flagged, &rules(false, false, false, true, false)));
    assert!(!is_free_model("m", &raw(r#"{"isFree":"true"}"#), &rules(false, false, false, true, false)));
    let r = rules(false, false, false, false, true);
    assert!(is_free_model("m", &raw(r#"{"pricing":{"prompt":"0","completion":"0.000"}}"#), &r));
    assert!(is_free_model("m", &raw(r#"{"pricing":{"prompt":0,"completion":0.0}}"#), &r));
    assert!(!is_free_model("m", &raw(r#"{"pricing":{"prompt":"0","completion":"0.5"}}"#), &r));
    assert!(!is_free_model("m", &raw(r#"{"pricing":{"prompt":"-1"}}"#), &r));
    assert!(!is_free_model("m", &raw(r#"{"pricing":{}}"#), &r));
    assert!(!is_free_model("m", &raw(r#"{"pricing":"0"}"#), &r));
    assert!(!is_free_model("m", &raw(r#"{"pricing":{"prompt":null}}"#), &r));
    assert!(!is_free_model("m", &null, &r));
}

#[test]
fn prices_that_are_zero() {
    for t in ["0", "-0", "+0.0", "0.", ".0", "000", "0e5", "0.00E-3", "0e+1"] {
        assert!(is_zero_text(t), "{}", t);
    }
    for t in ["", ".", "-", "1", "-1", "0.5", "0x0", "0e", "e0", "0.0.0", " 0", "0 ", "inf", "NaN", "0e+"] {
        assert!(!is_zero_text(t), "{}", t);
    }
    assert!(is_zero_price(&raw("0")));
    assert!(is_zero_price(&raw("0.0")));
    assert!(is_zero_price(&raw(r#""0""#)));
    assert!(!is_zero_price(&raw("1e-300")));
    assert!(!is_zero_price(&raw("false")));
    assert!(prices_are_zero(&raw(r#"{"pricing":{"a":"0","b":0}}"#)));
    assert!(!prices_are_zero(&raw(r#"{"pricing":{"a":"0","b":1}}"#)));
    assert!(!prices_are_zero(&raw(r#"{"other":{"a":"0"}}"#)));
}

fn line(id: &str, free: bool) -> ModelLine {
    ModelLine { id: id.into(), raw: Json::Null, is_free: free }
}

#[test]
fn free_models_come_first_in_their_order() {
    let lines = vec![line("a", false), line("b", true), line("c", false), line("d", true)];
    assert_eq!(count_free(&lines), 2);
    let ordered = order_free_first(lines);
    let ids: Vec<&str> = ordered.iter().map(|l| l.id.as_str()).collect();
    assert_eq!(ids, vec!["b", "d", "a", "c"]);
    assert_eq!(count_free(&ordered), 2);
    assert!(order_free_first(vec![]).is_empty());
}

#[test]
fn columns_are_sorted_and_unique() {
    let lines = vec![
        ModelLine { id: "a".into(), raw: raw(r#"{"id":"a","object":"model","zeta":1,"alpha":2}"#), is_free: false },
        ModelLine { id: "b".into(), raw: raw(r#"{"alpha":3,"beta":null}"#), is_free: false },
        ModelLine { id: "c".into(), raw: Json::Null, is_free: false },
    ];
    assert_eq!(column_keys(&lines), vec!["alpha".to_string(), "beta".to_string(), "zeta".to_string()]);
    assert!(column_keys(&vec![]).is_empty());
}

#[test]
fn cells_show_each_value() {
    let r = raw(r#"{"id":"m","b":true,"n":12.5,"s":"text","o":{"k":"v"},"a":["x"],"z":null}"#);
    let cells: Vec<String> = cells_of(&r).iter().map(s).collect();
    assert_eq!(
        cells,
        vec!["[&quot;x&quot;]", "true", "12.5", "{&quot;k&quot;:&quot;v&quot;}", "text", "null"]
    );
    assert!(cells_of(&Json::Null).is_empty());
}

#[test]
fn ids_and_labels_and_addresses() {
    assert_eq!(s(&escape_id("a\"b'c")), "a&quot;b&#39;c");
    assert_eq!(s(&escape_id("plain")), "plain");
    let e = s(&escape_id("\"'\"'"));
    assert!(!e.contains('"') && !e.contains('\''));
    assert_eq!(s(&label_of("max_completion_tokens")), "max completion tokens");
    let p = ProviderConfig {
        name: "P".into(),
        base_url: "https://x.com//".into(),
        models_endpoint: "/v1/models".into(),
        api_key_env: None,
        headers: vec![],
        disabled: false,
        free_rules: FreeRules::default(),
    };
    assert_eq!(s(&api_address_of(&p)), "https://x.com/v1/models");
}

#[test]
fn lines_of_a_provider_page() {
    let mut cfg = Config::example();
    cfg.providers[3].free_rules = rules(true, false, false, false, true);
    let models = vec![
        ModelId { id: "x:free".into(), created: None, owned_by: None, raw_data: None },
        ModelId { id: "y".into(), created: None, owned_by: None, raw_data: Some(r#"{"pricing":{"p":"0"}}"#.into()) },
        ModelId { id: "z".into(), created: None, owned_by: None, raw_data: Some("bad".into()) },
    ];
    let lines = model_lines("OpenRouter", &cfg, &models);
    let got: Vec<(&str, bool)> = lines.iter().map(|l| (l.id.as_str(), l.is_free)).collect();
    assert_eq!(got, vec![("x:free", true), ("y", true), ("z", false)]);
    let other = model_lines("Nobody", &cfg, &models);
    assert!(other.iter().all(|l| !l.is_free));
}

#[test]
fn free_rule_on_lowercase_id() {
    let r = rules(false, false, true, false, false);
    assert!(is_free_model_with("X", "free", &Json::Null, &r));
    assert!(!is_free_model_with("FREE", "x", &Json::Null, &r));
    assert!(is_free_model("ÀFREE", &Json::Null, &r));
}
