use base64::Engine;
use jwt_sidecar::claims::{resolve_audience, AudClaim, RawClaims};
use jwt_sidecar::store::KeyStore;
use jwt_sidecar::validate::{
    check_claims, validate_token, validate_token_after_refresh, AuthStep, Outcome,
};

fn b64url(s: &str) -> String {
    base64::engine::general_purpose::URL_SAFE_NO_PAD.encode(s.as_bytes())
}

fn unsigned_token(header: &str, payload: &str) -> String {
    format!("{}.{}.{}", b64url(header), b64url(payload), "c2ln")
}

fn claims_with(iss: &str, aud: AudClaim) -> Option<RawClaims> {
    Some(RawClaims { exp: 4102444800, iss: iss.to_string(), aud, email: None })
}

#[test]
fn matching_claims_accept() {
    let c = claims_with("https://acme.cloudflareaccess.com", AudClaim::Str("svc-a".to_string()));
    let r = check_claims(true, &c, "https://acme.cloudflareaccess.com", "svc-a");
    assert_eq!(r, Outcome::Accept);
}

#[test]
fn failed_signature_gate_rejects() {
    let c = claims_with("https://acme.cloudflareaccess.com", AudClaim::Str("svc-a".to_string()));
    let r = check_claims(false, &c, "https://acme.cloudflareaccess.com", "svc-a");
    assert_eq!(r, Outcome::Reject);
}

#[test]
fn issuer_mismatch_rejects() {
    let c = claims_with("https://evil.example.com", AudClaim::Str("svc-a".to_string()));
    let r = check_claims(true, &c, "https://acme.cloudflareaccess.com", "svc-a");
    assert_eq!(r, Outcome::Reject);
}

#[test]
fn audience_mismatch_rejects() {
    let c = claims_with("https://acme.cloudflareaccess.com", AudClaim::Str("svc-b".to_string()));
    let r = check_claims(true, &c, "https://acme.cloudflareaccess.com", "svc-a");
    assert_eq!(r, Outcome::Reject);
}

#[test]
fn missing_claim_set_rejects() {
    let r = check_claims(true, &None, "https://acme.cloudflareaccess.com", "svc-a");
    assert_eq!(r, Outcome::Reject);
}

#[test]
fn audience_list_is_compared_by_first_element_only() {
    let aud = AudClaim::List(vec![Some("svc-a".to_string()), Some("svc-b".to_string())]);
    let c = claims_with("https://acme.cloudflareaccess.com", aud);
    assert_eq!(check_claims(true, &c, "https://acme.cloudflareaccess.com", "svc-a"), Outcome::Accept);
    let aud2 = AudClaim::List(vec![Some("svc-a".to_string()), Some("svc-b".to_string())]);
    let c2 = claims_with("https://acme.cloudflareaccess.com", aud2);
    assert_eq!(check_claims(true, &c2, "https://acme.cloudflareaccess.com", "svc-b"), Outcome::Reject);
}

#[test]
fn audience_resolution_takes_first_string_element() {
    let one = AudClaim::Str("svc-a".to_string());
    assert_eq!(resolve_audience(&one), Some("svc-a".to_string()));
    let list = AudClaim::List(vec![Some("svc-a".to_string()), Some("svc-b".to_string())]);
    assert_eq!(resolve_audience(&list), Some("svc-a".to_string()));
    let empty = AudClaim::List(vec![]);
    assert_eq!(resolve_audience(&empty), None);
    let nonstring_first = AudClaim::List(vec![None, Some("svc-b".to_string())]);
    assert_eq!(resolve_audience(&nonstring_first), None);
}

#[test]
fn unparsable_token_header_rejects_at_once() {
    let store = KeyStore::new();
    let r = validate_token(&store, "no dots here", "https://acme.cloudflareaccess.com", "svc-a");
    assert!(matches!(r, AuthStep::Decided(Outcome::Reject)));
}

#[test]
fn header_without_key_identifier_rejects_at_once() {
    let store = KeyStore::new();
    let tok = unsigned_token(r#"{"alg":"RS256"}"#, r#"{"exp":4102444800}"#);
    let r = validate_token(&store, &tok, "https://acme.cloudflareaccess.com", "svc-a");
    assert!(matches!(r, AuthStep::Decided(Outcome::Reject)));
}

#[test]
fn unknown_key_identifier_asks_one_refresh_then_rejects() {
    let mut store = KeyStore::new();
    let tok = unsigned_token(
        r#"{"alg":"RS256","kid":"k1"}"#,
        r#"{"exp":4102444800,"iss":"https://acme.cloudflareaccess.com","aud":"svc-a"}"#,
    );
    let step = validate_token(&store, &tok, "https://acme.cloudflareaccess.com", "svc-a");
    match step {
        AuthStep::NeedsRefresh(kid) => assert_eq!(kid, "k1"),
        AuthStep::Decided(_) => panic!("an unknown key identifier must ask for a refresh"),
    }
    let body = r#"{"keys":[{"kid":"other","kty":"RSA","alg":"RS256","use":"sig","n":"abc","e":"AQAB"}]}"#;
    assert!(store.refresh_with(Some(body)).is_ok());
    let r = validate_token_after_refresh(&store, &tok, "https://acme.cloudflareaccess.com", "svc-a");
    assert_eq!(r, Outcome::Reject);
}

#[test]
fn known_key_with_invalid_signature_rejects() {
    let mut store = KeyStore::new();
    let body = r#"{"keys":[{"kid":"k1","kty":"RSA","alg":"RS256","use":"sig","n":"abc","e":"AQAB"}]}"#;
    assert!(store.refresh_with(Some(body)).is_ok());
    let tok = unsigned_token(
        r#"{"alg":"RS256","kid":"k1"}"#,
        r#"{"exp":4102444800,"iss":"https://acme.cloudflareaccess.com","aud":"svc-a"}"#,
    );
    let r = validate_token(&store, &tok, "https://acme.cloudflareaccess.com", "svc-a");
    assert!(matches!(r, AuthStep::Decided(Outcome::Reject)));
}

#[test]
fn declared_algorithm_must_match_the_supported_one() {
    let mut store = KeyStore::new();
    let body = r#"{"keys":[{"kid":"k1","kty":"RSA","alg":"RS256","use":"sig","n":"abc","e":"AQAB"}]}"#;
    assert!(store.refresh_with(Some(body)).is_ok());
    let mut m = serde_json::Map::new();
    m.insert("exp".to_string(), serde_json::Value::from(4102444800u64));
    m.insert(
        "iss".to_string(),
        serde_json::Value::from("https://acme.cloudflareaccess.com"),
    );
    m.insert("aud".to_string(), serde_json::Value::from("svc-a"));
    let mut header = jsonwebtoken::Header::new(jsonwebtoken::Algorithm::HS256);
    header.kid = Some("k1".to_string());
    let tok = jsonwebtoken::encode(
        &header,
        &serde_json::Value::Object(m),
        &jsonwebtoken::EncodingKey::from_secret(b"secret"),
    )
    .expect("token creation");
    let r = validate_token(&store, &tok, "https://acme.cloudflareaccess.com", "svc-a");
    assert!(matches!(r, AuthStep::Decided(Outcome::Reject)));
}

#[test]
fn configured_issuer_is_the_one_compared() {
    let config = jwt_sidecar::config::AppConfig::from_team("acme");
    let c = claims_with("https://acme.cloudflareaccess.com", AudClaim::Str("svc-a".to_string()));
    assert_eq!(check_claims(true, &c, &config.issuer, "svc-a"), Outcome::Accept);
    let d = claims_with("https://other.cloudflareaccess.com", AudClaim::Str("svc-a".to_string()));
    assert_eq!(check_claims(true, &d, &config.issuer, "svc-a"), Outcome::Reject);
}
