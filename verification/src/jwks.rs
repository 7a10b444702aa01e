use vstd::prelude::*;

verus! {

/// One candidate signing-key record from the provider's key-set document.
/// All fields are carried as they appear in the document; whether the record
/// is usable is decided by [`candidate_accepted`].
pub struct Jwk {
    pub kid: String,
    pub kty: String,
    pub alg: String,
    pub use_: String,
    pub n: String,
    pub e: String,
}

/// Mathematical model of a candidate record: the same six fields as
/// character sequences.
pub struct JwkView {
    pub kid: Seq<char>,
    pub kty: Seq<char>,
    pub alg: Seq<char>,
    pub use_: Seq<char>,
    pub n: Seq<char>,
    pub e: Seq<char>,
}

impl DeepView for Jwk {
    type V = JwkView;

    open spec fn deep_view(&self) -> JwkView {
        JwkView {
            kid: self.kid@,
            kty: self.kty@,
            alg: self.alg@,
            use_: self.use_@,
            n: self.n@,
            e: self.e@,
        }
    }
}

/// What the key-set document parses to: the ordered sequence of candidate
/// records, or nothing when the body is malformed. The result depends on the
/// body text alone.
pub uninterp spec fn jwks_document(body: Seq<char>) -> Option<Seq<JwkView>>;

/// Relies on serde_json::from_str and serde_json::Value's accessors: parses
/// the key-set document into its candidate records, in document order, from
/// the "keys" array. A document without that array, or with a candidate whose
/// six fields are not all strings, is malformed as a whole; fields beyond the
/// six are ignored.
#[verifier::external_body]
pub(crate) fn parse_key_set(body: &str) -> (r: Option<Vec<Jwk>>)
    ensures
        r.deep_view() == jwks_document(body@),
{
    let root: serde_json::Value = serde_json::from_str(body).ok()?;
    let list = root.get("keys")?.as_array()?;
    let mut keys: Vec<Jwk> = Vec::new();
    for k in list {
        keys.push(Jwk {
            kid: k.get("kid")?.as_str()?.to_string(), kty: k.get("kty")?.as_str()?.to_string(),
            alg: k.get("alg")?.as_str()?.to_string(), use_: k.get("use")?.as_str()?.to_string(),
            n: k.get("n")?.as_str()?.to_string(), e: k.get("e")?.as_str()?.to_string(),
        });
    }
    Some(keys)
}

/// Whether a modulus/exponent pair decodes into usable verification-key
/// material. The result depends on the two strings alone.
pub uninterp spec fn rsa_components_well_formed(n: Seq<char>, e: Seq<char>) -> bool;

/// Relies on jsonwebtoken::DecodingKey::from_rsa_components: whether the
/// modulus/exponent pair decodes into usable verification-key material.
#[verifier::external_body]
pub(crate) fn rsa_components_check(n: &str, e: &str) -> (r: bool)
    ensures
        r == rsa_components_well_formed(n@, e@),
{
    jsonwebtoken::DecodingKey::from_rsa_components(n, e).is_ok()
}

/// The four-constraint filter on a candidate record: RSA family, the one
/// supported algorithm, marked for signature use, and well-formed key
/// material. Only records passing all four become usable keys.
pub open spec fn candidate_accepted(k: JwkView) -> bool {
    &&& k.kty == "RSA"@
    &&& k.alg == "RS256"@
    &&& k.use_ == "sig"@
    &&& rsa_components_well_formed(k.n, k.e)
}

/// String comparison with an exact contract, used throughout the filter and
/// the claim checks.
pub fn str_eq(a: &str, b: &str) -> (r: bool)
    ensures
        r == (a@ == b@),
{
    let x = a.to_owned();
    let y = b.to_owned();
    x == y
}

/// Runs the four-constraint filter on one candidate.
pub fn jwk_accepted(k: &Jwk) -> (r: bool)
    ensures
        r == candidate_accepted(k.deep_view()),
{
    str_eq(k.kty.as_str(), "RSA") && str_eq(k.alg.as_str(), "RS256") && str_eq(
        k.use_.as_str(),
        "sig",
    ) && rsa_components_check(k.n.as_str(), k.e.as_str())
}

} // verus!
