use vstd::prelude::*;

use crate::claims::{
    extract_claims, resolve_audience, resolved_audience, token_claims, ClaimsView, RawClaims,
};
use crate::jwks::str_eq;
use crate::store::{KeyEntry, KeyStore, RsaParts};

verus! {

/// The validator's decision. On reject no detail is exposed to the caller;
/// the boundary response is uniform.
#[derive(Debug, Clone, Copy, PartialEq, Eq, Structural)]
pub enum Outcome {
    Accept,
    Reject,
}

/// The key identifier named in the token's header, or nothing when the
/// header is missing, unparsable, or names none. The result depends on the
/// token text alone.
pub uninterp spec fn header_key_id(t: Seq<char>) -> Option<Seq<char>>;

/// Relies on jsonwebtoken::decode_header: the key identifier named in the
/// token's header.
#[verifier::external_body]
pub(crate) fn token_key_id(token: &str) -> (r: Option<String>)
    ensures
        r.deep_view() == header_key_id(token@),
{
    match jsonwebtoken::decode_header(token) {
        Ok(h) => h.kid,
        Err(_) => None,
    }
}

/// Whether the token carries a valid RS256 signature for the key built from
/// this modulus/exponent pair, with the declared algorithm matching exactly.
/// This is the time-independent part of signature verification and depends
/// on the three strings alone.
pub uninterp spec fn rs256_signature_valid(t: Seq<char>, n: Seq<char>, e: Seq<char>) -> bool;

/// Relies on jsonwebtoken::decode and DecodingKey::from_rsa_components:
/// cryptographic signature verification with the declared-algorithm check,
/// plus the library's built-in expiry check. Success also depends on the
/// current time, so only the time-independent direction is stated: a token
/// that passed carried a valid RS256 signature for this key.
#[verifier::external_body]
pub(crate) fn verify_rs256(token: &str, n: &str, e: &str) -> (r: bool)
    ensures
        r ==> rs256_signature_valid(token@, n@, e@),
{
    let key = match jsonwebtoken::DecodingKey::from_rsa_components(n, e) {
        Ok(k) => k,
        Err(_) => return false,
    };
    let mut validation = jsonwebtoken::Validation::new(jsonwebtoken::Algorithm::RS256);
    validation.validate_aud = false;
    jsonwebtoken::decode::<serde_json::Value>(token, &key, &validation).is_ok()
}

/// The two claim comparisons of the validation chain: the issuer claim must
/// equal the configured trusted issuer exactly, and the resolved audience
/// claim must equal the expected audience exactly.
pub open spec fn claims_pass(c: ClaimsView, issuer: Seq<char>, expected_aud: Seq<char>) -> bool {
    c.iss == issuer && resolved_audience(c.aud) == Some(expected_aud)
}

/// For a claim set that passes under a trusted issuer and an expected
/// audience, changing the issuer claim alone to any different value, or the
/// expected audience alone to any different value, makes it fail; the
/// signature gate is already a conjunct of acceptance itself.
pub proof fn lemma_claim_flip_fails(
    c: ClaimsView,
    issuer: Seq<char>,
    aud: Seq<char>,
    other: Seq<char>,
)
    requires
        claims_pass(c, issuer, aud),
    ensures
        other != issuer ==> !claims_pass((ClaimsView { iss: other, ..c }), issuer, aud),
        other != aud ==> !claims_pass(c, issuer, other),
{
}

/// The decision on the outcome of the outside checks: accepted exactly when
/// the signature gate passed, the claim set is present, and both claim
/// comparisons hold. Any failure yields a uniform reject.
pub fn check_claims(
    sig_ok: bool,
    claims: &Option<RawClaims>,
    issuer: &str,
    expected_aud: &str,
) -> (r: Outcome)
    ensures
        (r == Outcome::Accept) <==> (sig_ok && (claims.deep_view() matches Some(c) && claims_pass(
            c,
            issuer@,
            expected_aud@,
        ))),
{
    if !sig_ok {
        return Outcome::Reject;
    }
    match claims {
        None => Outcome::Reject,
        Some(rc) => {
            let iss_ok = str_eq(rc.iss.as_str(), issuer);
            match resolve_audience(&rc.aud) {
                None => Outcome::Reject,
                Some(a) => {
                    if iss_ok && str_eq(a.as_str(), expected_aud) {
                        Outcome::Accept
                    } else {
                        Outcome::Reject
                    }
                },
            }
        },
    }
}

/// Everything acceptance certifies about a token under a key-store snapshot:
/// the header names a key the store holds, the signature verifies under that
/// key's material, and the claim set passes both comparisons.
pub open spec fn token_acceptable(
    m: Map<Seq<char>, RsaParts>,
    t: Seq<char>,
    issuer: Seq<char>,
    expected_aud: Seq<char>,
) -> bool {
    &&& header_key_id(t) matches Some(k)
    &&& m.contains_key(k)
    &&& rs256_signature_valid(t, m[k].n, m[k].e)
    &&& token_claims(t) matches Some(c)
    &&& claims_pass(c, issuer, expected_aud)
}

/// Signature, expiry and claim checks against one stored key.
fn check_with_entry(en: &KeyEntry, token: &str, issuer: &str, expected_aud: &str) -> (r: Outcome)
    ensures
        r == Outcome::Accept ==> rs256_signature_valid(token@, en.deep_view().n, en.deep_view().e)
            && (token_claims(token@) matches Some(c) && claims_pass(c, issuer@, expected_aud@)),
{
    let sig_ok = verify_rs256(token, en.n.as_str(), en.e.as_str());
    let claims = extract_claims(token);
    check_claims(sig_ok, &claims, issuer, expected_aud)
}

/// What one validation pass asks of its driver: either the decision is made,
/// or the named key identifier was not in the store and exactly one refresh
/// is to be run before the retry decides for good.
pub enum AuthStep {
    Decided(Outcome),
    NeedsRefresh(String),
}

/// The first validation pass over the current key-store snapshot. A missing
/// or unparsable header decides at once; an unknown key identifier asks for
/// one refresh; a known one runs the full chain.
pub fn validate_token(store: &KeyStore, token: &str, issuer: &str, expected_aud: &str) -> (r:
    AuthStep)
    ensures
        r matches AuthStep::NeedsRefresh(k) ==> header_key_id(token@) == Some(k@)
            && !store@.contains_key(k@),
        header_key_id(token@) is None ==> r == AuthStep::Decided(Outcome::Reject),
        header_key_id(token@) matches Some(k) ==> (!store@.contains_key(k) ==> (r
            matches AuthStep::NeedsRefresh(kk) && kk@ == k)),
        header_key_id(token@) matches Some(k) ==> (store@.contains_key(k) ==> r
            matches AuthStep::Decided(_)),
        r == AuthStep::Decided(Outcome::Accept) ==> token_acceptable(
            store@,
            token@,
            issuer@,
            expected_aud@,
        ),
{
    match token_key_id(token) {
        None => AuthStep::Decided(Outcome::Reject),
        Some(kid) => match store.lookup(kid.as_str()) {
            None => AuthStep::NeedsRefresh(kid),
            Some(en) => AuthStep::Decided(check_with_entry(en, token, issuer, expected_aud)),
        },
    }
}

/// The retry pass after the one refresh: it always decides. A key identifier
/// still missing from the store is a final reject.
pub fn validate_token_after_refresh(
    store: &KeyStore,
    token: &str,
    issuer: &str,
    expected_aud: &str,
) -> (r: Outcome)
    ensures
        r == Outcome::Accept ==> token_acceptable(store@, token@, issuer@, expected_aud@),
        header_key_id(token@) is None ==> r == Outcome::Reject,
        header_key_id(token@) matches Some(k) ==> (!store@.contains_key(k) ==> r
            == Outcome::Reject),
{
    match token_key_id(token) {
        None => Outcome::Reject,
        Some(kid) => match store.lookup(kid.as_str()) {
            None => Outcome::Reject,
            Some(en) => check_with_entry(en, token, issuer, expected_aud),
        },
    }
}

} // verus!
