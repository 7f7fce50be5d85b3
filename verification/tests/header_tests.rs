use dataopen_client::Client;
use dataopen_client::TokenData;
use dataopen_client::TokenResponse;
use dataopen_client::merge_headers;

fn pairs(items: &[(&str, &str)]) -> Vec<(String, String)> {
    items.iter().map(|(k, v)| (k.to_string(), v.to_string())).collect()
}

#[test]
fn defaults_lead_the_merged_list() {
    let merged = merge_headers(&"tok".to_string(), &Vec::new());
    assert_eq!(
        merged,
        pairs(&[("Authorization", "tok"), ("Content-Type", "application/json")])
    );
}

#[test]
fn caller_entries_follow_the_defaults_in_order() {
    let caller = pairs(&[("Accept", "text/plain"), ("X-Trace", "1")]);
    let merged = merge_headers(&"tok".to_string(), &caller);
    assert_eq!(
        merged,
        pairs(&[
            ("Authorization", "tok"),
            ("Content-Type", "application/json"),
            ("Accept", "text/plain"),
            ("X-Trace", "1"),
        ])
    );
}

#[test]
fn a_caller_authorization_overrides_the_default() {
    let caller = pairs(&[("authorization", "other")]);
    let merged = merge_headers(&"tok".to_string(), &caller);
    assert_eq!(
        merged,
        pairs(&[("Content-Type", "application/json"), ("authorization", "other")])
    );
}

#[test]
fn a_caller_content_type_overrides_the_default() {
    let caller = pairs(&[("CONTENT-TYPE", "text/xml")]);
    let merged = merge_headers(&"tok".to_string(), &caller);
    assert_eq!(
        merged,
        pairs(&[("Authorization", "tok"), ("CONTENT-TYPE", "text/xml")])
    );
}

#[test]
fn prepared_request_carries_the_fresh_token() {
    let mut c = Client::new("id", "secret", None, None, None);
    c.apply_token_response(
        TokenResponse {
            code: 200,
            message: String::new(),
            data: Some(TokenData { access_token: "tok123".to_string(), ttl: 1800 }),
        },
        1,
    )
    .unwrap();
    let caller = pairs(&[("Accept", "application/json")]);
    let p = c.prepare("/x", "post", &caller, &Vec::new()).unwrap();
    assert_eq!(
        p.headers,
        pairs(&[
            ("Authorization", "tok123"),
            ("Content-Type", "application/json"),
            ("Accept", "application/json"),
        ])
    );
    assert_eq!(
        p.url,
        "https://analytics.volcengineapi.com/dataopen/open-apis/x"
    );
}
