use tumblr_api::auth::{
    after_dispatch, load, AuthError, CacheRead, ClientError, Credentials, LoadStep,
    PersistedClient, PersistenceError, RefreshStep, SendAction, TokenGrant, TokenState,
};
use tumblr_api::envelope::{parse_envelope, parse_response, EnvelopeError, JsonValue};
use tumblr_api::requests::{
    AuthMode, BuildError, EndpointCall, HttpMethod, TumblrRequestBuilder, TumblrResponse,
};
use tumblr_api::TumblrClient;

const NOW: u64 = 1_700_000_000;
const INFO_URL: &str = "https://api.tumblr.com/v2/blog/example/info";

fn credentials() -> Credentials {
    Credentials {
        client_id: "cid".to_string(),
        client_secret: "csecret".to_string(),
        redirect_uri: None,
    }
}

fn grant(access: &str, refresh: Option<&str>, lifetime: Option<u64>) -> TokenGrant {
    TokenGrant {
        access_token: access.to_string(),
        refresh_token: refresh.map(|r| r.to_string()),
        expires_in: lifetime,
    }
}

fn cached(expires_at: u64, refresh: Option<&str>) -> PersistedClient {
    PersistedClient {
        credentials: credentials(),
        token: TokenState {
            access_token: "stale".to_string(),
            refresh_token: refresh.map(|r| r.to_string()),
            expires_at,
        },
    }
}

fn call(auth: AuthMode) -> EndpointCall {
    EndpointCall { method: HttpMethod::Get, url: INFO_URL.to_string(), json_body: None, auth }
}

fn ready(step: LoadStep) -> TumblrClient {
    match step {
        LoadStep::Ready(c) => c,
        _ => panic!("expected a loaded client"),
    }
}

/// Runs one typed send against a scripted provider and transport, counting
/// the calls made to each.
fn run_send(
    client: &mut TumblrClient,
    c: &EndpointCall,
    body: &str,
    refreshes: &mut u32,
    dispatches: &mut u32,
) -> (Result<String, ClientError>, Result<TumblrResponse<JsonValue>, ClientError>) {
    let mut action = client.begin_send(c, NOW);
    loop {
        match action {
            SendAction::Refresh(_) => {
                *refreshes += 1;
                action = client.after_refresh(c, Ok(grant("fresh", None, Some(3600))), NOW);
            }
            SendAction::Dispatch(_) => {
                *dispatches += 1;
                let raw = after_dispatch(Ok(body.to_string()));
                let raw2 = after_dispatch(Ok(body.to_string()));
                return (raw, parse_response(raw2));
            }
            SendAction::Finish(e) => {
                let e2 = match &e {
                    ClientError::Auth(AuthError::NoRefreshToken) => {
                        ClientError::Auth(AuthError::NoRefreshToken)
                    }
                    _ => ClientError::Transport("other".to_string()),
                };
                return (Err(e), Err(e2));
            }
        }
    }
}

#[test]
fn is_expired_is_inclusive() {
    let t = TokenState { access_token: "a".to_string(), refresh_token: None, expires_at: 100 };
    assert!(!t.is_expired(99));
    assert!(t.is_expired(100));
    assert!(t.is_expired(101));
}

#[test]
fn load_missing_is_not_found() {
    assert!(matches!(load(CacheRead::Missing), Err(PersistenceError::NotFound)));
}

#[test]
fn load_unreadable_and_corrupt_are_distinct() {
    assert!(matches!(load(CacheRead::Unreadable("denied".to_string())), Err(PersistenceError::Io(m)) if m == "denied"));
    assert!(matches!(load(CacheRead::Corrupt("eof".to_string())), Err(PersistenceError::Parse(m)) if m == "eof"));
}

#[test]
fn corrupt_cache_is_surfaced_not_reauthorized() {
    let step = TumblrClient::load_or_authorize(CacheRead::Corrupt("bad".to_string()), credentials());
    assert!(matches!(step, LoadStep::Failed(PersistenceError::Parse(_))));
}

#[test]
fn missing_cache_authorizes_and_persists() {
    let step = TumblrClient::load_or_authorize(CacheRead::Missing, credentials());
    let creds = match step {
        LoadStep::Authorize(c) => c,
        _ => panic!("expected an authorization"),
    };
    let client =
        TumblrClient::authorize(creds, Ok(grant("tok1", Some("ref1"), Some(3600))), NOW).unwrap();
    assert!(!client.is_expired(NOW));
    assert_eq!(client.expires_at(), NOW + 3600);
    let saved = client.to_persisted();
    let back = load(CacheRead::Parsed(saved)).unwrap();
    assert_eq!(back.token.access_token, "tok1");
    assert_eq!(back.token.refresh_token.as_deref(), Some("ref1"));
    assert_eq!(back.token.expires_at, NOW + 3600);
    assert_eq!(back.credentials.client_id, "cid");
}

#[test]
fn authorize_rejected_by_provider() {
    let r = TumblrClient::authorize(credentials(), Err("invalid_client".to_string()), NOW);
    assert!(matches!(r, Err(AuthError::ProviderRejected(m)) if m == "invalid_client"));
}

#[test]
fn grant_without_lifetime_never_expires() {
    let c = TumblrClient::authorize(credentials(), Ok(grant("t", None, None)), NOW).unwrap();
    assert_eq!(c.expires_at(), u64::MAX);
}

#[test]
fn grant_lifetime_saturates() {
    let c = TumblrClient::authorize(credentials(), Ok(grant("t", None, Some(u64::MAX))), NOW).unwrap();
    assert_eq!(c.expires_at(), u64::MAX);
}

#[test]
fn persisted_round_trip_keeps_fields() {
    let c = ready(TumblrClient::load_or_authorize(
        CacheRead::Parsed(cached(NOW - 3600, Some("r"))),
        credentials(),
    ));
    let p = c.to_persisted();
    assert_eq!(p.token.access_token, "stale");
    assert_eq!(p.token.refresh_token.as_deref(), Some("r"));
    assert_eq!(p.token.expires_at, NOW - 3600);
    assert_eq!(p.credentials.client_secret, "csecret");
    let again = TumblrClient::from_persisted(p).to_persisted();
    assert_eq!(again.token.expires_at, NOW - 3600);
}

#[test]
fn refresh_step_states() {
    let valid = TumblrClient::from_persisted(cached(NOW + 10, Some("r")));
    assert!(matches!(valid.refresh_step(NOW), RefreshStep::Fresh));
    let expired = TumblrClient::from_persisted(cached(NOW - 10, Some("r")));
    assert!(matches!(expired.refresh_step(NOW), RefreshStep::Refresh(t) if t == "r"));
    let stuck = TumblrClient::from_persisted(cached(NOW - 10, None));
    assert!(matches!(stuck.refresh_step(NOW), RefreshStep::Failed(AuthError::NoRefreshToken)));
}

#[test]
fn expired_token_is_refreshed_before_use() {
    let c = TumblrClient::from_persisted(cached(NOW - 1, Some("r")));
    let action = c.begin_send(&call(AuthMode::OAuthBearer), NOW);
    assert!(matches!(action, SendAction::Refresh(t) if t == "r"));
}

#[test]
fn refresh_keeps_old_refresh_token_when_none_returned() {
    let mut c = TumblrClient::from_persisted(cached(NOW - 1, Some("r")));
    c.apply_refresh(Ok(grant("new", None, Some(60))), NOW).unwrap();
    let p = c.to_persisted();
    assert_eq!(p.token.access_token, "new");
    assert_eq!(p.token.refresh_token.as_deref(), Some("r"));
    assert_eq!(p.token.expires_at, NOW + 60);
}

#[test]
fn refresh_rejected_leaves_tokens() {
    let mut c = TumblrClient::from_persisted(cached(NOW - 1, Some("r")));
    let r = c.after_refresh(&call(AuthMode::OAuthBearer), Err("invalid_grant".to_string()), NOW);
    assert!(matches!(r, SendAction::Finish(ClientError::Auth(AuthError::ProviderRejected(m))) if m == "invalid_grant"));
    assert_eq!(c.access_token(), "stale");
}

#[test]
fn api_key_request_has_key_and_no_bearer() {
    let c = TumblrClient::from_persisted(cached(NOW + 100, Some("r")));
    let req = c.build_request(&call(AuthMode::ApiKey)).unwrap();
    assert_eq!(req.query, vec![("api_key".to_string(), "cid".to_string())]);
    assert!(req.bearer_token.is_none());
    assert_eq!(req.url, INFO_URL);
    assert_eq!(req.method, HttpMethod::Get);
}

#[test]
fn bearer_request_has_token_and_no_key() {
    let c = TumblrClient::from_persisted(cached(NOW + 100, Some("r")));
    let req = c.build_request(&call(AuthMode::OAuthBearer)).unwrap();
    assert!(req.query.is_empty());
    assert_eq!(req.bearer_token.as_deref(), Some("stale"));
}

#[test]
fn json_body_sets_content_type_and_overwrites() {
    let b = TumblrRequestBuilder::new(HttpMethod::Post, INFO_URL.to_string())
        .json("{\"a\":1}".to_string())
        .json("{\"b\":2}".to_string())
        .auth_by_key(&"cid".to_string());
    let req = b.build().unwrap();
    assert_eq!(req.body.as_deref(), Some("{\"b\":2}"));
    assert_eq!(req.content_type.as_deref(), Some("application/json"));
    assert_eq!(req.method, HttpMethod::Post);
}

#[test]
fn build_rejects_bad_url() {
    let r = TumblrRequestBuilder::new(HttpMethod::Get, "not a url".to_string()).build();
    assert!(matches!(r, Err(BuildError::InvalidUrl)));
}

#[test]
fn build_rejects_bad_bearer_token() {
    let r = TumblrRequestBuilder::new(HttpMethod::Delete, INFO_URL.to_string())
        .auth_by_oauth(&"a\nb".to_string())
        .build();
    assert!(matches!(r, Err(BuildError::InvalidHeaderValue)));
    let ok = TumblrRequestBuilder::new(HttpMethod::Delete, INFO_URL.to_string())
        .auth_by_oauth(&"a\tb é".to_string())
        .build();
    assert!(ok.is_ok());
}

#[test]
fn fresh_cache_send_dispatches_once() {
    let mut c = TumblrClient::from_persisted(cached(NOW + 100, None));
    let (mut refreshes, mut dispatches) = (0, 0);
    let body = r#"{"meta":{"status":200,"msg":"OK"},"response":{}}"#;
    let (_, typed) = run_send(&mut c, &call(AuthMode::ApiKey), body, &mut refreshes, &mut dispatches);
    assert_eq!((refreshes, dispatches), (0, 1));
    assert_eq!(typed.unwrap().meta.msg, "OK");
}

#[test]
fn expired_cache_refreshes_once_then_dispatches() {
    let mut c = ready(TumblrClient::load_or_authorize(
        CacheRead::Parsed(cached(NOW - 3600, Some("r"))),
        credentials(),
    ));
    let (mut refreshes, mut dispatches) = (0, 0);
    let body = r#"{"meta":{"status":200,"msg":"OK"},"response":{"blog":{}}}"#;
    let (_, typed) =
        run_send(&mut c, &call(AuthMode::OAuthBearer), body, &mut refreshes, &mut dispatches);
    assert_eq!((refreshes, dispatches), (1, 1));
    assert_eq!(typed.unwrap().meta.status, 200);
    assert_eq!(c.access_token(), "fresh");
    assert!(!c.is_expired(NOW));
}

#[test]
fn expired_cache_without_refresh_token_fails_without_transport() {
    let mut c = ready(TumblrClient::load_or_authorize(
        CacheRead::Parsed(cached(NOW - 3600, None)),
        credentials(),
    ));
    let (mut refreshes, mut dispatches) = (0, 0);
    let (raw, typed) =
        run_send(&mut c, &call(AuthMode::OAuthBearer), "{}", &mut refreshes, &mut dispatches);
    assert_eq!((refreshes, dispatches), (0, 0));
    assert!(matches!(raw, Err(ClientError::Auth(AuthError::NoRefreshToken))));
    assert!(matches!(typed, Err(ClientError::Auth(AuthError::NoRefreshToken))));
}

#[test]
fn invalid_body_fails_typed_but_not_raw() {
    let mut c = TumblrClient::from_persisted(cached(NOW + 100, None));
    let (mut refreshes, mut dispatches) = (0, 0);
    let (raw, typed) =
        run_send(&mut c, &call(AuthMode::ApiKey), "<html>oops", &mut refreshes, &mut dispatches);
    assert_eq!(raw.unwrap(), "<html>oops");
    assert!(matches!(typed, Err(ClientError::Deserialize { body, .. }) if body == "<html>oops"));
}

#[test]
fn transport_failure_is_surfaced() {
    let r = after_dispatch(Err("connection reset".to_string()));
    assert!(matches!(r, Err(ClientError::Transport(m)) if m == "connection reset"));
    let t = parse_response(Err(ClientError::Transport("x".to_string())));
    assert!(matches!(t, Err(ClientError::Transport(m)) if m == "x"));
}

#[test]
fn envelope_fields_are_read() {
    let env = parse_envelope(r#"{"meta":{"status":404,"msg":"Not Found"},"response":[1,-2,"x"]}"#)
        .unwrap();
    assert_eq!(env.meta.status, 404);
    assert_eq!(env.meta.msg, "Not Found");
    match env.response {
        JsonValue::Array(items) => {
            assert_eq!(items.len(), 3);
            assert!(matches!(items[0], JsonValue::UInt(1)));
            assert!(matches!(items[1], JsonValue::NegInt(-2)));
            assert!(matches!(&items[2], JsonValue::Text(t) if t == "x"));
        }
        other => panic!("unexpected payload {:?}", other),
    }
}

#[test]
fn envelope_sample_success() {
    let env = parse_envelope(r#"{"meta":{"status":200,"msg":"OK"},"response":{"x":1}}"#).unwrap();
    assert_eq!(env.meta.status, 200);
    assert_eq!(env.meta.msg, "OK");
    match env.response {
        JsonValue::Object(m) => {
            assert_eq!(m.len(), 1);
            assert_eq!(m[0].0, "x");
            assert!(matches!(m[0].1, JsonValue::UInt(1)));
        }
        other => panic!("unexpected payload {:?}", other),
    }
}

#[test]
fn envelope_ignores_unknown_members() {
    let env = parse_envelope(
        r#"{"meta":{"status":404,"msg":"Not Found","x":1},"response":[],"extra":true}"#,
    )
    .unwrap();
    assert_eq!(env.meta.status, 404);
    assert_eq!(env.meta.msg, "Not Found");
    assert!(matches!(env.response, JsonValue::Array(a) if a.is_empty()));
}

#[test]
fn envelope_float_payload_keeps_text() {
    let env = parse_envelope(r#"{"meta":{"status":200,"msg":"OK"},"response":2.5}"#).unwrap();
    assert!(matches!(env.response, JsonValue::Float(t) if t == "2.5"));
}

#[test]
fn envelope_without_meta_is_refused() {
    assert!(matches!(parse_envelope(r#"{"response":{}}"#), Err(EnvelopeError::BadShape)));
    assert!(matches!(parse_envelope("[1,2]"), Err(EnvelopeError::BadShape)));
    assert!(matches!(
        parse_envelope(r#"{"meta":{"status":200.0,"msg":"OK"},"response":1}"#),
        Err(EnvelopeError::BadShape)
    ));
    assert!(matches!(
        parse_envelope(r#"{"meta":{"status":-1,"msg":"OK"},"response":1}"#),
        Err(EnvelopeError::BadShape)
    ));
}

#[test]
fn envelope_shape_errors() {
    assert!(matches!(
        parse_envelope(r#"{"meta":{"status":70000,"msg":"x"},"response":{}}"#),
        Err(EnvelopeError::BadShape)
    ));
    assert!(matches!(
        parse_envelope(r#"{"meta":{"status":200},"response":{}}"#),
        Err(EnvelopeError::BadShape)
    ));
    assert!(matches!(
        parse_envelope(r#"{"meta":{"status":200,"msg":"OK"}}"#),
        Err(EnvelopeError::BadShape)
    ));
    assert!(matches!(parse_envelope("[1,"), Err(EnvelopeError::NotJson(m)) if !m.is_empty()));
}

#[test]
fn build_rejects_url_without_host() {
    let r = TumblrRequestBuilder::new(HttpMethod::Get, "mailto:x@y".to_string()).build();
    assert!(matches!(r, Err(BuildError::InvalidUrl)));
}

#[test]
fn describe_bad_shape() {
    assert_eq!(EnvelopeError::BadShape.describe(), "body is not a response envelope");
    assert_eq!(EnvelopeError::NotJson("eof".to_string()).describe(), "eof");
}
