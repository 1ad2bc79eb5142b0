use open_provider::config::{FreeRules, ProviderConfig};
use open_provider::json::{Json, JsonMember};
use open_provider::providers::{
    catalogue_outcome, check_record, count_from_answer, count_models, count_with_models, created_from_column,
    flag_of, format_unix, format_unix_with, list_models, models_from_answer, read_answer,
    sql_flag, status_after_check, CheckEntry, ModelId, ProviderStatus, SqlValue,
};
use open_provider::text::i64_text;

#[test]
fn failed_request_gives_http_error() {
    match read_answer(false, "404 Not Found", "nope") {
        Err(e) => assert_eq!(e, "HTTP 404 Not Found: nope"),
        Ok(_) => panic!("expected an error"),
    }
    assert_eq!(
        count_from_answer(false, "500 Internal Server Error", "x"),
        Err("HTTP 500 Internal Server Error: x".to_string())
    );
}

#[test]
fn unreadable_body_gives_parse_error() {
    let r = count_from_answer(true, "200 OK", "{not json");
    assert!(r.is_err());
    assert!(!r.unwrap_err().is_empty());
}

#[test]
fn data_list_is_counted_and_read() {
    let body = r#"{"object":"list","data":[{"id":"a","created":1700000000,"owned_by":"o","extra":true},{"x":1},{"id":5}]}"#;
    assert_eq!(count_from_answer(true, "200 OK", body), Ok(3));
    let models = models_from_answer(true, "200 OK", body).unwrap();
    assert_eq!(models.len(), 1);
    assert_eq!(models[0].id, "a");
    assert_eq!(models[0].created, Some(1700000000));
    assert_eq!(models[0].owned_by.as_deref(), Some("o"));
    assert_eq!(
        models[0].raw_data.as_deref(),
        Some(r#"{"created":1700000000,"extra":true,"id":"a","owned_by":"o"}"#)
    );
}

#[test]
fn models_list_uses_name_then_id() {
    let body = r#"{"models":[{"name":"llama3"},{"id":"x","created":3},{"name":5,"id":"y"}]}"#;
    assert_eq!(count_from_answer(true, "200 OK", body), Ok(3));
    let models = models_from_answer(true, "200 OK", body).unwrap();
    let ids: Vec<&str> = models.iter().map(|m| m.id.as_str()).collect();
    assert_eq!(ids, vec!["llama3", "x"]);
    assert_eq!(models[1].created, None);
    assert_eq!(models[1].raw_data.as_deref(), Some(r#"{"created":3,"id":"x"}"#));
}

#[test]
fn bare_array_is_counted_but_lists_no_model() {
    assert_eq!(count_from_answer(true, "200 OK", "[1,2,3]"), Ok(3));
    assert_eq!(models_from_answer(true, "200 OK", "[1,2,3]").unwrap().len(), 0);
    assert_eq!(count_from_answer(true, "200 OK", r#"{"foo":1}"#), Ok(0));
    assert_eq!(count_from_answer(true, "200 OK", r#"{"data":7,"models":[1]}"#), Ok(1));
}

#[test]
fn catalogue_never_exceeds_count() {
    for body in [
        r#"{"data":[{"id":"a"},{},{"id":"b"}]}"#,
        r#"{"models":[{"name":"a"},{"id":2}]}"#,
        "[]",
        "[{\"id\":\"a\"}]",
    ] {
        let j = read_answer(true, "200 OK", body).ok().unwrap();
        assert!(list_models(&j).len() <= count_models(&j));
    }
}

#[test]
fn count_beside_models() {
    let m = ModelId { id: "a".into(), created: None, owned_by: None, raw_data: None };
    let r = count_with_models(Ok(vec![m]));
    let (n, v) = r.unwrap();
    assert_eq!(n, 1);
    assert_eq!(v[0].id, "a");
    assert_eq!(count_with_models(Err("e".into())).err(), Some("e".to_string()));
    assert_eq!(catalogue_outcome(&Ok((4, vec![]))), Ok(4));
    assert_eq!(catalogue_outcome(&Err("bad".into())), Err("bad".to_string()));
}

fn provider(key: Option<&str>) -> ProviderConfig {
    ProviderConfig {
        name: "P".into(),
        base_url: "https://p".into(),
        models_endpoint: "/m".into(),
        api_key_env: key.map(String::from),
        headers: vec![],
        disabled: false,
        free_rules: FreeRules::default(),
    }
}

#[test]
fn status_after_success_and_failure() {
    let now = "2024-01-01T00:00:00+00:00".to_string();
    let ok = status_after_check(&provider(Some("K")), &Ok(12), 34, &now);
    assert_eq!(ok.name, "P");
    assert_eq!(ok.base_url, "https://p");
    assert!(ok.requires_key);
    assert!(ok.is_healthy);
    assert_eq!(ok.last_check_at.as_deref(), Some(now.as_str()));
    assert_eq!(ok.response_time_ms, Some(34));
    assert_eq!(ok.model_count, Some(12));
    assert_eq!(ok.error_message, None);
    let bad = status_after_check(&provider(None), &Err("HTTP 401: no".into()), 5, &now);
    assert!(!bad.requires_key);
    assert!(!bad.is_healthy);
    assert_eq!(bad.model_count, None);
    assert_eq!(bad.error_message.as_deref(), Some("HTTP 401: no"));
}

#[test]
fn check_records_store_models_only_on_success() {
    let now = "2024-01-01T00:00:00+00:00".to_string();
    let m = ModelId { id: "m".into(), created: Some(1), owned_by: None, raw_data: None };
    let (ok, models) = check_record(&provider(None), Ok((1, vec![m])), 7, &now);
    assert!(ok.is_healthy);
    assert_eq!(ok.model_count, Some(1));
    assert_eq!(ok.last_check_at.as_deref(), Some(now.as_str()));
    assert_eq!(ok.response_time_ms, Some(7));
    assert_eq!(models.len(), 1);
    assert_eq!(models[0].id, "m");
    let (bad, none) = check_record(&provider(Some("K")), Err("HTTP 500: x".into()), 9, &now);
    assert!(!bad.is_healthy);
    assert!(bad.requires_key);
    assert_eq!(bad.error_message.as_deref(), Some("HTTP 500: x"));
    assert_eq!(bad.last_check_at.as_deref(), Some(now.as_str()));
    assert!(none.is_empty());
}

#[test]
fn stored_flags() {
    assert_eq!(sql_flag(true), 1);
    assert_eq!(sql_flag(false), 0);
    assert!(flag_of(1));
    assert!(flag_of(-3));
    assert!(!flag_of(0));
    let s = ProviderStatus::from_row("n".into(), "u".into(), 1, None, 0, Some(3), None, Some("e".into()));
    assert!(s.requires_key);
    assert!(!s.is_healthy);
    assert_eq!(s.response_time_ms, Some(3));
    let c = CheckEntry::from_row("n".into(), "t".into(), 2, Some(1), Some(2), None);
    assert!(c.is_healthy);
    assert_eq!(c.model_count, Some(2));
}

#[test]
fn creation_time_columns() {
    assert_eq!(created_from_column(&SqlValue::Integer(5)), Some(5));
    assert_eq!(created_from_column(&SqlValue::Text("1700000000".into())), Some(1700000000));
    assert_eq!(created_from_column(&SqlValue::Text("-12".into())), Some(-12));
    assert_eq!(created_from_column(&SqlValue::Text("12.5".into())), None);
    assert_eq!(created_from_column(&SqlValue::Text("".into())), None);
    assert_eq!(created_from_column(&SqlValue::Null), None);
    assert_eq!(created_from_column(&SqlValue::Real), None);
    assert_eq!(created_from_column(&SqlValue::Blob), None);
}

#[test]
fn creation_time_round_trips_through_its_text() {
    for ts in [0i64, 1, -1, 1700000000, i64::MIN, i64::MAX] {
        let text: String = i64_text(ts).iter().collect();
        assert_eq!(created_from_column(&SqlValue::Text(text)), Some(ts));
    }
}

#[test]
fn unix_times_as_dates() {
    assert_eq!(format_unix(0), "1970-01-01");
    assert_eq!(format_unix(1700000000), "2023-11-14");
    assert_eq!(format_unix(-86400), "1969-12-31");
    assert_eq!(format_unix(i64::MAX), "9223372036854775807");
    assert_eq!(format_unix_with(None, -5), "-5");
    assert_eq!(format_unix_with(Some("d".into()), -5), "d");
}

#[test]
fn json_values_are_read_by_member() {
    let j = Json::Object(vec![
        JsonMember { key: "a".into(), value: open_provider::catalog::read_raw(&Some("3".into())) },
        JsonMember { key: "b".into(), value: Json::Array(vec![Json::Null]) },
    ]);
    assert_eq!(open_provider::json::i64_value(open_provider::json::get_member(&j, "a").unwrap()), Some(3));
    assert!(open_provider::json::array_items(open_provider::json::get_member(&j, "b").unwrap()).is_some());
    assert!(open_provider::json::get_member(&j, "c").is_none());
    assert!(open_provider::json::get_member(&Json::Null, "a").is_none());
    assert_eq!(open_provider::json::bool_value(&Json::Bool(true)), Some(true));
    assert!(open_provider::json::string_value(&Json::Str("s".into())).is_some());
    assert!(open_provider::json::object_members(&j).is_some());
}

#[test]
fn raw_data_keeps_numbers_as_read() {
    let item = r#"{"id":"m","p":0.30000000000000004,"q":1.7976931348623157e308,"r":2.2250738585072014e-308,"s":-0.0,"t":123456789012345678}"#;
    let body = format!(r#"{{"data":[{}]}}"#, item);
    let models = models_from_answer(true, "200 OK", &body).unwrap();
    let expected = serde_json::to_string(&serde_json::from_str::<serde_json::Value>(item).unwrap()).unwrap();
    assert_eq!(models[0].raw_data.as_deref(), Some(expected.as_str()));
    let n = open_provider::catalog::read_raw(&Some("0.30000000000000004".into()));
    match &n {
        Json::Number(x) => {
            assert_eq!(x.text(), "0.30000000000000004");
            assert_eq!(x.as_i64(), None);
        },
        _ => panic!("not a number"),
    }
}
