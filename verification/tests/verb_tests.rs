use dataopen_client::Client;
use dataopen_client::ClientError;
use dataopen_client::Verb;
use dataopen_client::parse_verb;

#[test]
fn every_allowed_verb_is_selected() {
    assert_eq!(parse_verb("GET").unwrap(), Verb::Get);
    assert_eq!(parse_verb("POST").unwrap(), Verb::Post);
    assert_eq!(parse_verb("PUT").unwrap(), Verb::Put);
    assert_eq!(parse_verb("DELETE").unwrap(), Verb::Delete);
    assert_eq!(parse_verb("PATCH").unwrap(), Verb::Patch);
}

#[test]
fn verb_selection_folds_ascii_case() {
    assert_eq!(parse_verb("get").unwrap(), parse_verb("GET").unwrap());
    assert_eq!(parse_verb("gEt").unwrap(), Verb::Get);
    assert_eq!(parse_verb("DeLeTe").unwrap(), Verb::Delete);
    assert_eq!(parse_verb("patch").unwrap(), Verb::Patch);
}

#[test]
fn unsupported_verbs_are_rejected_by_name() {
    for verb in ["HEAD", "OPTIONS", "TRACE", "", "GETS", "PAST"] {
        match parse_verb(verb) {
            Err(ClientError::UnsupportedVerb(m)) => assert_eq!(m, verb),
            other => panic!("expected {:?} to be unsupported, got {:?}", verb, other),
        }
    }
}

#[test]
fn only_get_sends_no_body() {
    assert!(!Verb::Get.sends_body());
    assert!(Verb::Post.sends_body());
    assert!(Verb::Put.sends_body());
    assert!(Verb::Delete.sends_body());
    assert!(Verb::Patch.sends_body());
}

#[test]
fn prepare_rejects_an_unsupported_verb_without_an_empty_success() {
    let c = Client::new("id", "secret", None, None, None);
    let r = c.prepare("/a", "HEAD", &Vec::new(), &Vec::new());
    match r {
        Err(ClientError::UnsupportedVerb(m)) => assert_eq!(m, "HEAD"),
        other => panic!("expected an unsupported-verb error, got {:?}", other),
    }
}

#[test]
fn prepare_selects_the_verb_case_insensitively() {
    let c = Client::new("id", "secret", None, None, None);
    let lower = c.prepare("/a", "get", &Vec::new(), &Vec::new()).unwrap();
    let upper = c.prepare("/a", "GET", &Vec::new(), &Vec::new()).unwrap();
    assert_eq!(lower.verb, upper.verb);
    assert_eq!(lower.url, upper.url);
    assert_eq!(lower.headers, upper.headers);
}
