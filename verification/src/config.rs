use vstd::prelude::*;
use vstd::string::StringExecFns;

verus! {

/// Seconds between scheduled key refreshes: twelve hours, the provider's
/// key rotation cadence.
pub const REFRESH_INTERVAL_SECS: u64 = 12 * 60 * 60;

/// The trusted issuer derived from a team identifier.
pub open spec fn issuer_chars(team: Seq<char>) -> Seq<char> {
    "https://"@ + team + ".cloudflareaccess.com"@
}

/// The key-set retrieval location derived from a team identifier.
pub open spec fn jwks_url_chars(team: Seq<char>) -> Seq<char> {
    issuer_chars(team) + "/cdn-cgi/access/certs"@
}

/// Process-lifetime configuration: the trusted issuer and the location the
/// signing keys are fetched from, both derived once from the team identifier.
pub struct AppConfig {
    pub issuer: String,
    pub jwks_url: String,
}

impl AppConfig {
    /// Both fields carry exactly the strings derived from `team`.
    pub open spec fn derived_from(self, team: Seq<char>) -> bool {
        self.issuer@ == issuer_chars(team) && self.jwks_url@ == jwks_url_chars(team)
    }

    pub fn from_team(team: &str) -> (c: AppConfig)
        ensures
            c.derived_from(team@),
    {
        let mut issuer = "https://".to_owned();
        issuer.append(team);
        issuer.append(".cloudflareaccess.com");
        let mut url = issuer.clone();
        url.append("/cdn-cgi/access/certs");
        AppConfig { issuer, jwks_url: url }
    }
}

} // verus!
