use patch_client::client::Client;
use patch_client::error::Error;
use patch_client::json::{JsonNumber, JsonValue};

fn to_doc(v: serde_json::Value) -> JsonValue {
    match v {
        serde_json::Value::Null => JsonValue::Null,
        serde_json::Value::Bool(b) => JsonValue::Bool(b),
        serde_json::Value::Number(n) => JsonValue::Number(JsonNumber {
            text: n.to_string(),
            int_value: n.as_i64(),
        }),
        serde_json::Value::String(s) => JsonValue::Str(s),
        serde_json::Value::Array(a) => JsonValue::Array(a.into_iter().map(to_doc).collect()),
        serde_json::Value::Object(m) => {
            JsonValue::Object(m.into_iter().map(|(k, v)| (k, to_doc(v))).collect())
        }
    }
}

fn parsed(body: &str) -> Option<JsonValue> {
    serde_json::from_str::<serde_json::Value>(body).ok().map(to_doc)
}

#[test]
fn metrics_path_uses_compound_unit_interval_segment() {
    let p2 = Client::build_metrics_path_v2("p1", "device", "panel", "5m");
    assert_eq!(p2, "api/v2/metrics/plants/p1/device/panel-5m");

    let p3 = Client::build_metrics_path_v3("p1", "device", "panel", "5m");
    assert_eq!(p3, "api/v3/plants/p1/metrics/device/panel-5m");
}

#[test]
fn metrics_path_encodes_untrusted_segments() {
    let p3 = Client::build_metrics_path_v3("../admin", "device/solar", "..", "5m");
    assert_eq!(
        p3,
        "api/v3/plants/%2E%2E%2Fadmin/metrics/device%2Fsolar/%2E%2E-5m"
    );
}

#[test]
fn api_error_parses_problem_json_when_possible() {
    let body = r#"{"title":"Bad Request","status":400,"detail":"invalid input"}"#;
    let err = Client::api_error(400, parsed(body));
    match err {
        Error::ApiProblem {
            status,
            title,
            detail,
            ..
        } => {
            assert_eq!(status, 400);
            assert_eq!(title, "Bad Request");
            assert_eq!(detail.as_deref(), Some("invalid input"));
        }
        _ => panic!("expected ApiProblem"),
    }
}

#[test]
fn url_join_invalid_input_does_not_panic() {
    let client = Client::new("https://example.com/").expect("valid base");
    let result = client.url("http://[:::1]");
    assert!(result.is_err(), "url join should not panic on invalid path");
}

#[test]
fn new_rejects_non_loopback_http_base_url() {
    match Client::new("http://example.com") {
        Err(Error::InsecureBaseUrl(_)) => {}
        _ => panic!("non-loopback http must be rejected"),
    }
}

#[test]
fn new_rejects_hostless_https_base_url() {
    assert!(
        Client::new("https:///").is_err(),
        "hostless https base URL must be rejected"
    );
}

#[test]
fn base_url_path_prefix_is_preserved_without_trailing_slash() {
    let client = Client::new("https://example.com/proxy").expect("valid base");
    let url = client
        .url("api/v3/account/")
        .expect("url should include configured prefix");
    assert_eq!(url.as_str(), "https://example.com/proxy/api/v3/account/");
}

#[test]
fn url_rejects_parent_path_segments() {
    let client = Client::new("https://example.com/").expect("valid base");
    let err = client
        .url("api/v3/plants/../admin")
        .expect_err("must reject path traversal segments");
    assert!(matches!(err, Error::InvalidPath(_)));
}

#[test]
fn url_rejects_percent_encoded_parent_path_segments() {
    let client = Client::new("https://example.com/").expect("valid base");
    let err = client
        .url("api/v3/plants/%2E%2E/admin")
        .expect_err("must reject encoded path traversal segments");
    assert!(matches!(err, Error::InvalidPath(_)));
}

#[test]
fn url_rejects_lowercase_percent_encoded_parent_path_segments() {
    let client = Client::new("https://example.com/").expect("valid base");
    let err = client
        .url("api/v3/plants/%2e%2e/admin")
        .expect_err("must reject encoded path traversal segments");
    assert!(matches!(err, Error::InvalidPath(_)));
}

#[test]
fn url_rejects_percent_encoded_path_separators() {
    let client = Client::new("https://example.com/").expect("valid base");
    let err = client
        .url("api/v3/plants/%2Fadmin")
        .expect_err("must reject encoded path separators");
    assert!(matches!(err, Error::InvalidPath(_)));
}

#[test]
fn encode_path_segment_escapes_dot_segments() {
    assert_eq!(Client::encode_path_segment(".."), "%2E%2E");
    assert_eq!(Client::encode_path_segment("./x"), "%2E%2Fx");
}

#[test]
fn api_error_redacts_raw_error_body_for_non_problem_json() {
    let raw = "secret=very-sensitive-token";
    let err = Client::api_error(500, parsed(raw));
    match err {
        Error::Api { status, message } => {
            assert_eq!(status, 500);
            assert!(
                !message.contains(raw),
                "error message should not include raw upstream payload"
            );
        }
        _ => panic!("expected Api error"),
    }
}

#[test]
fn url_rejects_single_dot_backslash_and_scheme_separator() {
    let client = Client::new("https://example.com/").expect("valid base");
    for bad in [
        "api/./x",
        "api/%2e/x",
        "api/%2E%2e/x",
        "api/.%2E/x",
        "api/a%5Cb",
        "api/a\\b",
        "api/%2fx",
        "x://evil.com/a",
        "//evil.com/a",
    ] {
        assert!(
            matches!(client.url(bad), Err(Error::InvalidPath(_))),
            "{bad} must be refused"
        );
    }
}

#[test]
fn url_strips_one_leading_separator_and_keeps_prefix() {
    let client = Client::new("https://example.com/base/").expect("valid base");
    assert_eq!(
        client.url("/api/v3/plants/p%2D1").unwrap(),
        "https://example.com/base/api/v3/plants/p%2D1"
    );
    assert_eq!(
        client.url("api/x%25y").unwrap(),
        "https://example.com/base/api/x%25y"
    );
}

#[test]
fn url_with_query_appends_pairs_in_order() {
    let client = Client::new("https://example.com").expect("valid base");
    let query = vec![
        ("date".to_string(), "2026-01-01".to_string()),
        ("fields".to_string(), "i_out,p".to_string()),
    ];
    assert_eq!(
        client.url_with_query("api/v3/plants/p1/metrics/device/panel-5m", &query).unwrap(),
        "https://example.com/api/v3/plants/p1/metrics/device/panel-5m?date=2026-01-01&fields=i_out%2Cp"
    );
}

#[test]
fn new_accepts_loopback_http_and_refuses_query_or_fragment() {
    assert!(Client::new("http://localhost:8080").is_ok());
    assert!(Client::new("http://LOCALHOST").is_ok());
    assert!(Client::new("http://127.0.0.1:9000/").is_ok());
    assert!(Client::new("http://127.5.6.7").is_ok());
    assert!(Client::new("http://[::1]:8080").is_ok());
    assert!(matches!(Client::new("http://10.0.0.1"), Err(Error::InsecureBaseUrl(_))));
    assert!(matches!(Client::new("ftp://example.com"), Err(Error::InsecureBaseUrl(_))));
    assert!(matches!(Client::new("https://example.com/?a=1"), Err(Error::InvalidPath(_))));
    assert!(matches!(Client::new("https://example.com/#top"), Err(Error::InvalidPath(_))));
    assert!(matches!(Client::new("not a url"), Err(Error::Url(_))));
}

#[test]
fn encode_path_segment_keeps_unreserved_bytes() {
    assert_eq!(Client::encode_path_segment("Az09-_~"), "Az09-_~");
    assert_eq!(Client::encode_path_segment(""), "");
    assert_eq!(Client::encode_path_segment("a b/é"), "a%20b%2F%C3%A9");
}

#[test]
fn encoded_segment_is_accepted_as_one_segment_unless_it_decodes_to_dots() {
    let client = Client::new("https://example.com/").expect("valid base");
    let seg = Client::encode_path_segment("a/../b");
    let path = format!("api/v3/plants/{seg}");
    assert!(client.url(&path).is_err(), "decodes to a segment with separators");
    let seg = Client::encode_path_segment("2026-01-01");
    assert!(client.url(&format!("api/{seg}")).is_ok());
    let dots = Client::encode_path_segment("..");
    assert!(matches!(client.url(&format!("api/{dots}")), Err(Error::InvalidPath(_))));
}

#[test]
fn api_error_uses_generic_title_when_problem_has_none() {
    match Client::api_error(404, parsed(r#"{"detail": "no such plant"}"#)) {
        Error::ApiProblem { status, title, detail, .. } => {
            assert_eq!(status, 404);
            assert_eq!(title, "API Error");
            assert_eq!(detail.as_deref(), Some("no such plant"));
        }
        _ => panic!("expected ApiProblem"),
    }
    match Client::api_error(502, parsed(r#"{"title": 7}"#)) {
        Error::Api { status, message } => {
            assert_eq!(status, 502);
            assert_eq!(message, "upstream error body omitted");
        }
        _ => panic!("a mistyped title is not a problem document"),
    }
    assert!(matches!(Client::api_error(500, parsed("[1, 2]")), Error::Api { .. }));
}

#[test]
fn push_fields_csv_query_joins_with_commas() {
    let mut q: Vec<(String, String)> = vec![("date".to_string(), "d".to_string())];
    Client::push_fields_csv_query(&mut q, None);
    assert_eq!(q.len(), 1);
    let empty: Vec<String> = Vec::new();
    Client::push_fields_csv_query(&mut q, Some(&empty));
    assert_eq!(q.len(), 1);
    let fields = vec!["i_out".to_string(), "p".to_string(), "v_in".to_string()];
    Client::push_fields_csv_query(&mut q, Some(&fields));
    assert_eq!(q[1], ("fields".to_string(), "i_out,p,v_in".to_string()));
}

#[test]
fn get_metrics_by_date_v3_serializes_fields_as_csv_query() {
    let client = Client::new("http://127.0.0.1:8080").expect("create client");
    let path = Client::build_metrics_path_v3("p1", "device", "panel", "5m");
    let mut query = vec![("date".to_string(), "2026-01-01".to_string())];
    let fields = vec!["i_out".to_string(), "p".to_string()];
    Client::push_fields_csv_query(&mut query, Some(&fields));
    let url = client.url_with_query(&path, &query).expect("metrics request should succeed");
    assert!(url.ends_with(
        "/api/v3/plants/p1/metrics/device/panel-5m?date=2026-01-01&fields=i_out%2Cp"
    ));
}
