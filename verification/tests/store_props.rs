use jwt_sidecar::store::{FetchError, KeyStore};

fn key_obj(kid: &str, kty: &str, alg: &str, use_: &str, n: &str, e: &str) -> String {
    format!(
        r#"{{"kid":"{}","kty":"{}","alg":"{}","use":"{}","n":"{}","e":"{}"}}"#,
        kid, kty, alg, use_, n, e
    )
}

fn body_of(keys: &[String]) -> String {
    format!(r#"{{"keys":[{}]}}"#, keys.join(","))
}

#[test]
fn network_failure_maps_to_network_error() {
    let mut s = KeyStore::new();
    assert!(matches!(s.refresh_with(None), Err(FetchError::Network)));
}

#[test]
fn malformed_body_maps_to_parse_error() {
    let mut s = KeyStore::new();
    assert!(matches!(s.refresh_with(Some("not json")), Err(FetchError::Parse)));
    assert!(matches!(s.refresh_with(Some("{}")), Err(FetchError::Parse)));
}

#[test]
fn candidate_missing_a_field_makes_document_malformed() {
    let mut s = KeyStore::new();
    let body = r#"{"keys":[{"kid":"k1","kty":"RSA","use":"sig","n":"abc","e":"AQAB"}]}"#;
    assert!(matches!(s.refresh_with(Some(body)), Err(FetchError::Parse)));
}

#[test]
fn accepted_key_is_retained() {
    let mut s = KeyStore::new();
    let body = body_of(&[key_obj("k1", "RSA", "RS256", "sig", "abc", "AQAB")]);
    assert_eq!(s.refresh_with(Some(&body)), Ok((1, 1)));
    let en = s.lookup("k1").expect("accepted key must be retained");
    assert_eq!(en.kid, "k1");
    assert_eq!(en.n, "abc");
    assert_eq!(en.e, "AQAB");
}

#[test]
fn rejected_candidates_are_excluded_without_affecting_others() {
    let mut s = KeyStore::new();
    let body = body_of(&[
        key_obj("good", "RSA", "RS256", "sig", "abc", "AQAB"),
        key_obj("wrong_type", "EC", "RS256", "sig", "abc", "AQAB"),
        key_obj("wrong_alg", "RSA", "RS384", "sig", "abc", "AQAB"),
        key_obj("wrong_use", "RSA", "RS256", "enc", "abc", "AQAB"),
        key_obj("bad_material", "RSA", "RS256", "sig", "!!!", "AQAB"),
    ]);
    assert_eq!(s.refresh_with(Some(&body)), Ok((5, 1)));
    assert!(s.lookup("good").is_some());
    assert!(s.lookup("wrong_type").is_none());
    assert!(s.lookup("wrong_alg").is_none());
    assert!(s.lookup("wrong_use").is_none());
    assert!(s.lookup("bad_material").is_none());
}

#[test]
fn refresh_failure_leaves_previous_contents_intact() {
    let mut s = KeyStore::new();
    let body = body_of(&[key_obj("k1", "RSA", "RS256", "sig", "abc", "AQAB")]);
    assert!(s.refresh_with(Some(&body)).is_ok());
    assert!(matches!(s.refresh_with(None), Err(FetchError::Network)));
    assert!(s.lookup("k1").is_some());
    assert!(matches!(s.refresh_with(Some("garbage")), Err(FetchError::Parse)));
    assert!(s.lookup("k1").is_some());
}

#[test]
fn refresh_replaces_the_whole_snapshot() {
    let mut s = KeyStore::new();
    let first = body_of(&[key_obj("old", "RSA", "RS256", "sig", "abc", "AQAB")]);
    let second = body_of(&[key_obj("new", "RSA", "RS256", "sig", "abcd", "AQAB")]);
    assert!(s.refresh_with(Some(&first)).is_ok());
    assert!(s.refresh_with(Some(&second)).is_ok());
    assert!(s.lookup("old").is_none(), "no entry of an earlier cycle may survive");
    assert!(s.lookup("new").is_some());
}

#[test]
fn later_duplicate_of_a_key_identifier_wins() {
    let mut s = KeyStore::new();
    let body = body_of(&[
        key_obj("k1", "RSA", "RS256", "sig", "abc", "AQAB"),
        key_obj("k1", "RSA", "RS256", "sig", "abcd", "AQAB"),
    ]);
    assert_eq!(s.refresh_with(Some(&body)), Ok((2, 2)));
    let en = s.lookup("k1").expect("key must be present");
    assert_eq!(en.n, "abcd");
}

#[test]
fn empty_key_list_gives_empty_store() {
    let mut s = KeyStore::new();
    assert_eq!(s.refresh_with(Some(r#"{"keys":[]}"#)), Ok((0, 0)));
    assert!(s.lookup("anything").is_none());
}

#[test]
fn extra_document_fields_are_ignored() {
    let mut s = KeyStore::new();
    let body = format!(
        r#"{{"keys":[{}],"public_cert":{{"kid":"x","cert":"y"}}}}"#,
        key_obj("k1", "RSA", "RS256", "sig", "abc", "AQAB")
    );
    assert_eq!(s.refresh_with(Some(&body)), Ok((1, 1)));
    assert!(s.lookup("k1").is_some());
}
