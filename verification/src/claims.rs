use vstd::prelude::*;

verus! {

/// The audience claim as the token's payload carries it: a single string, or
/// a list. A list element that is not a string is kept as `None`, so that the
/// resolution step can decide on the list exactly as the payload had it.
pub enum AudClaim {
    Str(String),
    List(Vec<Option<String>>),
}

/// Mathematical model of the audience claim.
pub enum AudClaimView {
    Str(Seq<char>),
    List(Seq<Option<Seq<char>>>),
}

impl DeepView for AudClaim {
    type V = AudClaimView;

    open spec fn deep_view(&self) -> AudClaimView {
        match self {
            AudClaim::Str(s) => AudClaimView::Str(s@),
            AudClaim::List(items) => AudClaimView::List(items.deep_view()),
        }
    }
}

/// The claim fields the validator reads: expiration instant, issuer,
/// audience, and the optional subject label kept only for observability.
pub struct RawClaims {
    pub exp: u64,
    pub iss: String,
    pub aud: AudClaim,
    pub email: Option<String>,
}

/// Mathematical model of the claim set.
pub struct ClaimsView {
    pub exp: u64,
    pub iss: Seq<char>,
    pub aud: AudClaimView,
    pub email: Option<Seq<char>>,
}

impl DeepView for RawClaims {
    type V = ClaimsView;

    open spec fn deep_view(&self) -> ClaimsView {
        ClaimsView {
            exp: self.exp,
            iss: self.iss@,
            aud: self.aud.deep_view(),
            email: self.email.deep_view(),
        }
    }
}

/// What the token's payload carries: the claim set, or nothing when the
/// payload is not well-formed or lacks a required claim. The result depends
/// on the token text alone; no signature or time check is involved.
pub uninterp spec fn token_claims(t: Seq<char>) -> Option<ClaimsView>;

/// Relies on jsonwebtoken::insecure_decode_claims and serde_json::Value's
/// accessors: the claim fields carried in the token's payload. The token's
/// signature is not checked here; expiration, issuer and audience are
/// required, a token lacking one has no claim set.
#[verifier::external_body]
pub(crate) fn extract_claims(token: &str) -> (r: Option<RawClaims>)
    ensures
        r.deep_view() == token_claims(token@),
{
    let v: serde_json::Value = jsonwebtoken::dangerous::insecure_decode_claims(token).ok()?;
    let exp = v.get("exp")?.as_u64()?;
    let iss = v.get("iss")?.as_str()?.to_string();
    let aud = match v.get("aud")? {
        serde_json::Value::String(s) => AudClaim::Str(s.clone()),
        serde_json::Value::Array(items) => AudClaim::List(
            items.iter().map(|x| x.as_str().map(|s| s.to_string())).collect(),
        ),
        _ => return None,
    };
    let email = v.get("email").and_then(|x| x.as_str()).map(|s| s.to_string());
    Some(RawClaims { exp, iss, aud, email })
}

/// String-or-list resolution: a single string stands for itself; of a list
/// only the first element is meaningful, and it must be a string. An empty
/// list, or a first element that is no string, resolves to nothing.
pub open spec fn resolved_audience(a: AudClaimView) -> Option<Seq<char>> {
    match a {
        AudClaimView::Str(s) => Some(s),
        AudClaimView::List(items) => if items.len() > 0 {
            items[0]
        } else {
            None
        },
    }
}

/// The explicit tagged normalization step for the audience claim, applied at
/// the boundary before any comparison.
pub fn resolve_audience(a: &AudClaim) -> (r: Option<String>)
    ensures
        r.deep_view() == resolved_audience(a.deep_view()),
{
    match a {
        AudClaim::Str(s) => Some(s.clone()),
        AudClaim::List(items) => if items.len() > 0 {
            match &items[0] {
                Some(s) => Some(s.clone()),
                None => None,
            }
        } else {
            None
        },
    }
}

} // verus!
