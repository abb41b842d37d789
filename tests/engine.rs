use patch_client::client::Client;
use patch_client::error::Error;
use patch_client::executor::{
    is_success, push_chunk, read_text_body, refresh_reads_body, refresh_result, text_payload,
    CallPolicy, CallState, Step,
};
use patch_client::json::{JsonNumber, JsonValue};
use patch_client::metrics::MetricsBody;
use patch_client::model::PlantBodyV3;
use patch_client::session::{
    AuthBody, AuthOutputV3Body, AuthState, AuthStore, AuthWithPasswordBody, V2Login,
};

fn to_doc(v: serde_json::Value) -> JsonValue {
    match v {
        serde_json::Value::Null => JsonValue::Null,
        serde_json::Value::Bool(b) => JsonValue::Bool(b),
        serde_json::Value::Number(n) => JsonValue::Number(JsonNumber {
            text: n.to_string(),
            int_value: n.as_i64(),
        }),
        serde_json::Value::String(s) => JsonValue::Str(s),
        serde_json::Value::Array(a) => JsonValue::Array(a.into_iter().map(to_doc).collect()),
        serde_json::Value::Object(m) => {
            JsonValue::Object(m.into_iter().map(|(k, v)| (k, to_doc(v))).collect())
        }
    }
}

fn parsed(body: &str) -> Option<JsonValue> {
    serde_json::from_str::<serde_json::Value>(body).ok().map(to_doc)
}

fn session(token: &str, account_type: &str) -> AuthState {
    AuthState { token: token.to_string(), account_type: account_type.to_string() }
}

const AUTHED: CallPolicy = CallPolicy { include_auth: true, allow_refresh_on_401: true };
const LOGIN: CallPolicy = CallPolicy { include_auth: false, allow_refresh_on_401: false };

#[test]
fn unauthorized_response_triggers_exactly_one_refresh() {
    let mut call = CallState::start(AUTHED);
    let sent = call.authenticate(Some(session("t1", "manager")));
    assert_eq!(sent.map(|s| s.token), Some("t1".to_string()));
    assert_eq!(call.inspect(401), Step::RefreshAndRetry);
    let sent = call.authenticate(Some(session("t2", "manager")));
    assert_eq!(sent.map(|s| s.token), Some("t2".to_string()));
    assert_eq!(call.inspect(401), Step::ReadBody);
}

#[test]
fn unauthorized_without_token_is_not_refreshed() {
    let mut call = CallState::start(AUTHED);
    assert!(call.authenticate(None).is_none());
    assert_eq!(call.inspect(401), Step::ReadBody);
    let mut call = CallState::start(AUTHED);
    call.authenticate(Some(session("t", "viewer")));
    assert_eq!(call.inspect(403), Step::ReadBody);
    assert_eq!(call.inspect(200), Step::ReadBody);
}

#[test]
fn login_does_not_refresh_on_login_endpoint_unauthorized() {
    let mut store = AuthStore::new();
    store.record_login(Ok(session("tok", "manager"))).expect("first login should succeed");
    let mut call = CallState::start(LOGIN);
    assert!(call.authenticate(store.read()).is_none());
    assert_eq!(call.inspect(401), Step::ReadBody);
    let err = Client::api_error(
        401,
        parsed(r#"{"title":"invalid credentials","detail":"wrong password"}"#),
    );
    match store.record_login(Err(err)) {
        Err(Error::ApiProblem { status, title, .. }) => {
            assert_eq!(status, 401);
            assert_eq!(title, "invalid credentials");
        }
        _ => panic!("expected 401 login error without refresh"),
    }
    assert!(store.read().is_none(), "failed login must clear stale authentication context");
}

#[test]
fn login_endpoints_do_not_send_stale_authorization_header() {
    let mut store = AuthStore::new();
    store.record_login(Ok(session("old", "manager"))).unwrap();
    let mut call = CallState::start(LOGIN);
    assert!(call.authenticate(store.read()).is_none());
    assert!(!call.authed);
}

#[test]
fn failed_login_for_other_reasons_keeps_session() {
    let mut store = AuthStore::new();
    store.record_login(Ok(session("tok", "viewer"))).unwrap();
    let _ = store.record_login(Err(Client::api_error(500, None)));
    assert_eq!(store.read().map(|s| s.token), Some("tok".to_string()));
    let _ = store.record_login(Err(Error::Request("timeout".to_string())));
    assert!(store.read().is_some());
    let _ = store.record_login(Err(Client::api_error(403, None)));
    assert!(store.read().is_none());
}

#[test]
fn unauthorized_request_keeps_refresh_failure_cause() {
    let err = refresh_result(500, parsed(r#"{"title":"refresh failed","detail":"backend down"}"#))
        .expect_err("refresh failure should not collapse to Unauthorized");
    match err {
        Error::ApiProblem { status, title, .. } => {
            assert_eq!(status, 500);
            assert_eq!(title, "refresh failed");
        }
        _ => panic!("expected refresh API failure cause to be preserved"),
    }
}

#[test]
fn unauthorized_refresh_maps_to_unauthorized_error() {
    assert!(!refresh_reads_body(401));
    assert!(matches!(refresh_result(401, None), Err(Error::Unauthorized)), "must return unauthorized");
    assert!(matches!(refresh_result(403, None), Err(Error::Unauthorized)));
}

#[test]
fn refresh_success_replaces_only_the_token() {
    let mut store = AuthStore::new();
    assert!(matches!(store.refresh_credentials(), Err(Error::Unauthorized)));
    store.record_login(Ok(session("old", "viewer"))).unwrap();
    let creds = store.refresh_credentials().unwrap();
    assert_eq!(creds.token, "old");
    let token = refresh_result(200, parsed(r#"{"token":"new","name":"n"}"#)).unwrap();
    store.apply_refresh(token);
    let now = store.read().unwrap();
    assert_eq!(now.token, "new");
    assert_eq!(now.account_type, "viewer");
    assert!(matches!(refresh_result(200, parsed("{}")), Err(Error::Serialization(_))));
    assert!(matches!(refresh_result(200, None), Err(Error::Serialization(_))));
}

#[test]
fn body_at_limit_is_read_and_one_byte_over_fails_closed() {
    let mut body = Vec::new();
    assert!(push_chunk(&mut body, b"hello", 10).is_ok());
    assert!(push_chunk(&mut body, b"world", 10).is_ok());
    assert_eq!(body, b"helloworld");
    let mut body = Vec::new();
    assert!(push_chunk(&mut body, b"hello", 10).is_ok());
    match push_chunk(&mut body, b"world!", 10) {
        Err(Error::ResponseTooLarge(max)) => assert_eq!(max, 10),
        _ => panic!("one byte over must fail"),
    }
    assert_eq!(body, b"hello");
    let mut body = Vec::new();
    assert!(push_chunk(&mut body, b"", 0).is_ok());
    assert!(push_chunk(&mut body, b"x", 0).is_err());
}

#[test]
fn get_blueprint_text_accepts_plain_text_response() {
    let text = read_text_body(true, "text/plain", b"raw-blueprint-content");
    assert_eq!(text, "raw-blueprint-content");
}

#[test]
fn get_blueprint_text_decodes_json_string_payload() {
    let text = read_text_body(true, "application/json", b"\"aGVsbG8=\"");
    assert_eq!(text, "aGVsbG8=");
    let text = read_text_body(true, "Application/Problem+JSON; charset=utf-8", b"\"x\"");
    assert_eq!(text, "x");
    let text = read_text_body(false, "application/json", b"\"aGVsbG8=\"");
    assert_eq!(text, "\"aGVsbG8=\"");
    let text = read_text_body(true, "application/json", b"{\"a\":1}");
    assert_eq!(text, "{\"a\":1}");
    assert_eq!(text_payload(true, "text/plain", Some("j".to_string()), "r".to_string()), "r");
}

#[test]
fn get_panel_metrics_rejects_missing_data() {
    let json = r#"{"plant_id": "p1", "unit": "panel", "source": "device",
        "date": "2026-01-01", "interval": "5m", "data": null}"#;
    let body = MetricsBody::deserialize(parsed(json).unwrap()).unwrap();
    match Client::panel_metrics(body) {
        Err(Error::Api { status, message }) => {
            assert_eq!(status, 500);
            assert!(message.contains("missing metrics data"));
        }
        _ => panic!("expected Api error for missing panel metrics data"),
    }
    let json = r#"{"plant_id": "p1", "unit": "panel", "source": "device",
        "date": "2026-01-01", "interval": "day", "data": []}"#;
    let body = MetricsBody::deserialize(parsed(json).unwrap()).unwrap();
    assert!(matches!(Client::panel_metrics(body), Err(Error::Api { status: 500, .. })));
    let json = r#"{"plant_id": "p1", "unit": "panel", "source": "device",
        "date": "2026-01-01", "interval": "5m", "data": []}"#;
    let body = MetricsBody::deserialize(parsed(json).unwrap()).unwrap();
    let m = Client::panel_metrics(body).unwrap();
    assert_eq!(m.plant_id, "p1");
    assert!(m.data.is_empty());
}

#[test]
fn success_range_is_2xx() {
    assert!(is_success(200));
    assert!(is_success(299));
    assert!(!is_success(199));
    assert!(!is_success(300));
    assert!(!is_success(401));
}

#[test]
fn login_body_picks_account_type_from_account() {
    let m = AuthWithPasswordBody::for_account("manager@example.com", "pw");
    assert_eq!(m.account_type, "manager");
    assert_eq!(m.email.as_deref(), Some("manager@example.com"));
    assert!(m.username.is_none());
    let v = AuthWithPasswordBody::for_account("viewer1", "pw");
    assert_eq!(v.account_type, "viewer");
    assert_eq!(v.username.as_deref(), Some("viewer1"));
    assert!(v.email.is_none());
    assert_eq!(
        m.redacted_debug(),
        "AuthWithPasswordBody { account_type: manager, password: <redacted>, email: Some(manager@example.com), username: None }"
    );
}

#[test]
fn login_answer_opens_a_session() {
    let doc = parsed(
        r#"{"token": "tok", "type": "manager", "name": "M", "email": null,
            "organizations": [{"id": "o1", "name": "Org"}], "metadata": {"k": 1}}"#,
    )
    .unwrap();
    let out = match AuthOutputV3Body::decode(doc) {
        Ok(out) => out,
        Err(e) => panic!("login answer should decode: {}", e.message()),
    };
    assert_eq!(out.name, "M");
    assert!(out.email.is_none());
    assert_eq!(out.organizations.as_ref().unwrap()[0].id, "o1");
    assert!(out.metadata.is_some());
    let s = out.session();
    assert_eq!((s.token.as_str(), s.account_type.as_str()), ("tok", "manager"));
    assert!(AuthOutputV3Body::decode(parsed(r#"{"token": "t", "name": "n"}"#).unwrap()).is_err());

    let v2 = AuthBody { token: "t2".to_string(), name: "n".to_string() };
    assert_eq!(v2.v2_session(V2Login::Viewer).account_type, "viewer");
    assert_eq!(v2.v2_session(V2Login::Manager).account_type, "manager");
}

#[test]
fn create_plant_v3_accepts_legacy_response_shape() {
    let legacy = parsed(
        r#"{"id": "p1", "name": "Plant One", "organization": "org-1",
            "organizationData": {"id": "org-1", "name": "Org"},
            "created": "c", "updated": "u", "metadata": null}"#,
    )
    .unwrap();
    let plant = PlantBodyV3::decode_created(legacy).expect("legacy create response should deserialize");
    assert_eq!(plant.name, "Plant One");
    assert_eq!(plant.organization.id, "org-1");
    assert!(matches!(plant.metadata, JsonValue::Null));

    let v3 = parsed(
        r#"{"id": "p2", "name": "Two", "organization": {"id": "org-2", "name": "O2"},
            "created": "c", "updated": "u", "metadata": {"a": 1}, "images": ["x"]}"#,
    )
    .unwrap();
    let plant = PlantBodyV3::decode_created(v3).unwrap();
    assert_eq!(plant.organization.name, "O2");
    assert_eq!(plant.images, Some(vec!["x".to_string()]));

    let neither = parsed(r#"{"id": "p3", "name": "Three", "organization": "org"}"#).unwrap();
    assert!(PlantBodyV3::decode_created(neither).is_err());
}
