use dataopen_client::Client;
use dataopen_client::ClientError;
use dataopen_client::ParamsValueType;
use dataopen_client::TokenData;
use dataopen_client::TokenResponse;

fn ok_response(token: &str, ttl: i32) -> TokenResponse {
    TokenResponse {
        code: 200,
        message: String::new(),
        data: Some(TokenData { access_token: token.to_string(), ttl }),
    }
}

#[test]
fn new_substitutes_defaults_for_absent_inputs() {
    let c = Client::new("id", "secret", None, None, None);
    assert_eq!(c.url, "https://analytics.volcengineapi.com");
    assert_eq!(c.env, "dataopen");
    assert_eq!(c.expiration, "1800");
    assert_eq!(c.app_id, "id");
    assert_eq!(c.app_secret, "secret");
}

#[test]
fn new_substitutes_defaults_for_empty_inputs() {
    let c = Client::new("id", "secret", Some(""), Some(""), Some(""));
    assert_eq!(c.url, "https://analytics.volcengineapi.com");
    assert_eq!(c.env, "dataopen");
    assert_eq!(c.expiration, "1800");
}

#[test]
fn new_keeps_given_configuration() {
    let c = Client::new(
        "id",
        "secret",
        Some("https://example.test"),
        Some("dataopen_staging"),
        Some("60"),
    );
    assert_eq!(c.url, "https://example.test");
    assert_eq!(c.env, "dataopen_staging");
    assert_eq!(c.expiration, "60");
}

#[test]
fn fresh_client_is_not_authenticated_and_never_valid() {
    let c = Client::new("id", "secret", None, None, None);
    assert!(!c.valid_token(0));
    assert!(!c.valid_token(1_700_000_000));
    assert!(!c.is_valid());
    assert!(!c.is_authenticated());
}

#[test]
fn refresh_makes_token_valid_until_ttl_elapses() {
    let mut c = Client::new("id", "secret", None, None, None);
    let r = c.apply_token_response(ok_response("tok", 1800), 1000);
    assert!(r.is_ok());
    assert!(c.valid_token(1000));
    assert!(c.valid_token(2800));
    assert!(!c.valid_token(2801));
}

#[test]
fn negative_ttl_is_never_valid() {
    let mut c = Client::new("id", "secret", None, None, None);
    let r = c.apply_token_response(ok_response("tok", -1), 1000);
    assert!(r.is_ok());
    assert!(!c.valid_token(1000));
}

#[test]
fn override_takes_precedence_over_granted_ttl() {
    let mut c = Client::new("id", "secret", None, None, None);
    c.apply_token_response(ok_response("tok", 1800), 1000).unwrap();
    assert!(c.valid_token_with_override(1010, Some(10)));
    assert!(!c.valid_token_with_override(1011, Some(10)));
    assert!(c.valid_token_with_override(1011, None));
}

#[test]
fn successful_exchange_authenticates_and_authorizes_requests() {
    let mut c = Client::new("id", "secret", None, None, None);
    let r = c.apply_token_response(
        TokenResponse {
            code: 200,
            message: String::new(),
            data: Some(TokenData { access_token: "tok123".to_string(), ttl: 1800 }),
        },
        1000,
    );
    assert!(r.is_ok());
    assert_eq!(c.access_token, "tok123");
    assert_eq!(c.ttl, 1800);
    assert_eq!(c.token_time, 1000);
    let prepared = c.prepare("/a", "GET", &Vec::new(), &Vec::new()).unwrap();
    assert_eq!(
        prepared.headers[0],
        ("Authorization".to_string(), "tok123".to_string())
    );
    assert!(c.is_authenticated());
}

#[test]
fn failed_exchange_reports_auth_error_and_changes_nothing() {
    let mut c = Client::new("id", "secret", None, None, None);
    let r = c.apply_token_response(
        TokenResponse { code: 401, message: "bad credentials".to_string(), data: None },
        1000,
    );
    match r {
        Err(ClientError::Auth { code, message }) => {
            assert_eq!(code, 401);
            assert_eq!(message, "bad credentials");
        }
        other => panic!("expected an auth error, got {:?}", other),
    }
    assert_eq!(c.access_token, "");
    assert_eq!(c.ttl, 0);
    assert_eq!(c.token_time, 0);
    assert!(!c.is_authenticated());
}

#[test]
fn success_code_without_data_is_an_auth_error() {
    let mut c = Client::new("id", "secret", None, None, None);
    let r = c.apply_token_response(
        TokenResponse { code: 200, message: "no payload".to_string(), data: None },
        1000,
    );
    match r {
        Err(ClientError::Auth { code, message }) => {
            assert_eq!(code, 200);
            assert_eq!(message, "no payload");
        }
        other => panic!("expected an auth error, got {:?}", other),
    }
    assert!(!c.is_authenticated());
}

#[test]
fn failed_exchange_keeps_previous_token() {
    let mut c = Client::new("id", "secret", None, None, None);
    c.apply_token_response(ok_response("tok", 1800), 1000).unwrap();
    let r = c.apply_token_response(
        TokenResponse { code: 500, message: "down".to_string(), data: None },
        2000,
    );
    assert!(r.is_err());
    assert_eq!(c.access_token, "tok");
    assert_eq!(c.token_time, 1000);
    assert!(c.valid_token(2800));
}

#[test]
fn build_url_without_params_has_no_query_suffix() {
    let c = Client::new("id", "secret", Some("https://b"), Some("e"), None);
    let u = c.build_url("/a/b", &Vec::new());
    assert_eq!(u, "https://b/e/open-apis/a/b");
}

#[test]
fn build_url_renders_typed_params_in_order() {
    let c = Client::new("id", "secret", Some("https://b"), Some("e"), None);
    let params = vec![
        ("x".to_string(), ParamsValueType::Integer(1)),
        ("y".to_string(), ParamsValueType::Boolean(true)),
    ];
    let u = c.build_url("/a/b", &params);
    assert_eq!(u, "https://b/e/open-apis/a/b?x=1&y=true");
    assert_eq!(u.matches('?').count(), 1);
    assert_eq!(u.matches('&').count(), 1);
    assert!(u.contains("x=1"));
    assert!(u.contains("y=true"));
}

#[test]
fn build_url_with_defaulted_client_matches_production_base() {
    let c = Client::new("id", "secret", None, None, None);
    let params = vec![
        ("app".to_string(), ParamsValueType::Integer(46)),
        ("page_size".to_string(), ParamsValueType::Integer(2)),
        ("page".to_string(), ParamsValueType::Integer(1)),
    ];
    let u = c.build_url("/libra/openapi/v1/open/flight-list", &params);
    assert_eq!(
        u,
        "https://analytics.volcengineapi.com/dataopen/open-apis/libra/openapi/v1/open/flight-list?app=46&page_size=2&page=1"
    );
}

#[test]
fn joint_query_appends_each_rendered_value() {
    let c = Client::new("id", "secret", None, None, None);
    let params = vec![
        ("t".to_string(), ParamsValueType::Text("hello".to_string())),
        ("n".to_string(), ParamsValueType::Integer(-12)),
        ("f".to_string(), ParamsValueType::Float("2.5".to_string())),
        ("b".to_string(), ParamsValueType::Boolean(false)),
    ];
    let u = c.joint_query("https://x/y", &params);
    assert_eq!(u, "https://x/y?t=hello&n=-12&f=2.5&b=false");
}

#[test]
fn integer_rendering_covers_the_extremes() {
    let c = Client::new("id", "secret", None, None, None);
    let params = vec![
        ("lo".to_string(), ParamsValueType::Integer(i32::MIN)),
        ("hi".to_string(), ParamsValueType::Integer(i32::MAX)),
        ("zero".to_string(), ParamsValueType::Integer(0)),
    ];
    let u = c.joint_query("u", &params);
    assert_eq!(u, "u?lo=-2147483648&hi=2147483647&zero=0");
}

#[test]
fn authorization_url_is_the_fixed_exchange_endpoint() {
    let c = Client::new("id", "secret", None, None, None);
    assert_eq!(
        c.authorization_url(),
        "https://analytics.volcengineapi.com/dataopen/open-apis/v1/authorization"
    );
    let s = Client::new("id", "secret", Some("https://b"), Some("stage"), None);
    assert_eq!(s.authorization_url(), "https://b/stage/open-apis/v1/authorization");
}

#[test]
fn auth_body_carries_the_client_identity() {
    let c = Client::new("my-id", "my-secret", None, None, None);
    let body = c.auth_body();
    assert_eq!(
        body,
        vec![
            ("app_id".to_string(), "my-id".to_string()),
            ("app_secret".to_string(), "my-secret".to_string()),
        ]
    );
}
