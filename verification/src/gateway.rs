use vstd::prelude::*;
use vstd::string::StrSliceExecFns;

use crate::validate::Outcome;

verus! {

/// Whitespace as it occurs around cookie segments.
pub open spec fn ws_char(c: char) -> bool {
    c == ' ' || c == '\t' || c == '\n' || c == '\r'
}

fn ws_exec(c: char) -> (r: bool)
    ensures
        r == ws_char(c),
{
    c == ' ' || c == '\t' || c == '\n' || c == '\r'
}

pub open spec fn trim_front(s: Seq<char>) -> Seq<char>
    decreases s.len(),
{
    if s.len() > 0 && ws_char(s[0]) {
        trim_front(s.drop_first())
    } else {
        s
    }
}

pub open spec fn trim_back(s: Seq<char>) -> Seq<char>
    decreases s.len(),
{
    if s.len() > 0 && ws_char(s.last()) {
        trim_back(s.drop_last())
    } else {
        s
    }
}

/// A segment with its surrounding whitespace removed.
pub open spec fn trimmed(s: Seq<char>) -> Seq<char> {
    trim_back(trim_front(s))
}

proof fn lemma_trim_front_skip(s: Seq<char>, j: int)
    requires
        0 <= j <= s.len(),
        forall|i: int| 0 <= i < j ==> ws_char(s[i]),
        j == s.len() || !ws_char(s[j]),
    ensures
        trim_front(s) == s.skip(j),
    decreases j,
{
    if j == 0 {
        assert(s.skip(0) =~= s);
    } else {
        let t = s.drop_first();
        assert(forall|i: int| 0 <= i < j - 1 ==> t[i] == s[i + 1]);
        lemma_trim_front_skip(t, j - 1);
        assert(t.skip(j - 1) =~= s.skip(j));
    }
}

proof fn lemma_trim_back_take(s: Seq<char>, j: int)
    requires
        0 <= j <= s.len(),
        forall|i: int| j <= i < s.len() ==> ws_char(s[i]),
        j == 0 || !ws_char(s[j - 1]),
    ensures
        trim_back(s) == s.take(j),
    decreases s.len(),
{
    if j == s.len() {
        assert(s.take(j) =~= s);
    } else {
        let t = s.drop_last();
        assert(ws_char(s.last()));
        assert(forall|i: int| 0 <= i < t.len() ==> t[i] == s[i]);
        lemma_trim_back_take(t, j);
        assert(t.take(j) =~= s.take(j));
    }
}

/// Removes surrounding whitespace, proved against the recursive trims.
fn trim_ws(s: &str) -> (r: String)
    ensures
        r@ == trimmed(s@),
{
    let n = s.unicode_len();
    let mut lo: usize = 0;
    while lo < n && ws_exec(s.get_char(lo))
        invariant
            lo <= n,
            n == s@.len(),
            forall|i: int| 0 <= i < lo ==> ws_char(s@[i]),
        decreases n - lo,
    {
        lo = lo + 1;
    }
    let mut hi: usize = n;
    while hi > lo && ws_exec(s.get_char(hi - 1))
        invariant
            lo <= hi <= n,
            n == s@.len(),
            forall|i: int| hi <= i < n ==> ws_char(s@[i]),
        decreases hi,
    {
        hi = hi - 1;
    }
    let sub = s.substring_char(lo, hi);
    let r = sub.to_owned();
    proof {
        lemma_trim_front_skip(s@, lo as int);
        let t = s@.skip(lo as int);
        assert(forall|i: int| hi - lo <= i < t.len() ==> ws_char(t[i]));
        lemma_trim_back_take(t, hi - lo as int);
        assert(t.take(hi - lo as int) =~= s@.subrange(lo as int, hi as int));
    }
    r
}

/// Index of the first `';'`, or the length when there is none.
pub open spec fn semi_pos(s: Seq<char>) -> nat
    decreases s.len(),
{
    if s.len() == 0 {
        0
    } else if s[0] == ';' {
        0
    } else {
        (semi_pos(s.drop_first()) + 1) as nat
    }
}

proof fn lemma_semi_pos(s: Seq<char>)
    ensures
        semi_pos(s) <= s.len(),
        forall|i: int| 0 <= i < semi_pos(s) ==> s[i] != ';',
        semi_pos(s) < s.len() ==> s[semi_pos(s) as int] == ';',
    decreases s.len(),
{
    if s.len() > 0 && s[0] != ';' {
        let t = s.drop_first();
        lemma_semi_pos(t);
        assert(forall|i: int| 1 <= i < semi_pos(s) ==> s[i] == t[i - 1]);
    }
}

fn find_semi(s: &str) -> (j: usize)
    ensures
        j == semi_pos(s@),
{
    let n = s.unicode_len();
    let mut i: usize = 0;
    while i < n && s.get_char(i) != ';'
        invariant
            i <= n,
            n == s@.len(),
            forall|k: int| 0 <= k < i ==> s@[k] != ';',
        decreases n - i,
    {
        i = i + 1;
    }
    proof {
        lemma_semi_pos(s@);
        if semi_pos(s@) < i {
            assert(s@[semi_pos(s@) as int] == ';');
        }
        if i < semi_pos(s@) {
            assert(s@[i as int] != ';');
        }
    }
    i
}

/// Whether `s` begins with the fixed cookie name and its `=`.
pub open spec fn cookie_prefix() -> Seq<char> {
    "CF_Authorization="@
}

pub open spec fn starts_with(s: Seq<char>, p: Seq<char>) -> bool {
    s.len() >= p.len() && s.take(p.len() as int) == p
}

fn has_cookie_prefix(t: &str) -> (r: bool)
    ensures
        r == starts_with(t@, cookie_prefix()),
{
    let p = "CF_Authorization=";
    proof {
        reveal_strlit("CF_Authorization=");
        assert(p@ =~= cookie_prefix());
    }
    let plen = p.unicode_len();
    let tlen = t.unicode_len();
    if tlen < plen {
        return false;
    }
    let mut i: usize = 0;
    while i < plen
        invariant
            i <= plen,
            p@ == cookie_prefix(),
            plen == p@.len(),
            tlen == t@.len(),
            tlen >= plen,
            forall|k: int| 0 <= k < i ==> t@[k] == cookie_prefix()[k],
        decreases plen - i,
    {
        if t.get_char(i) != p.get_char(i) {
            proof {
                assert(t@.take(plen as int)[i as int] != cookie_prefix()[i as int]);
            }
            return false;
        }
        i = i + 1;
    }
    proof {
        assert(t@.take(plen as int) =~= cookie_prefix());
    }
    true
}

/// The token carried by a cookie header: the first `';'`-separated segment
/// that, trimmed, starts with the fixed cookie name, minus that prefix.
pub open spec fn cookie_token(s: Seq<char>) -> Option<Seq<char>>
    decreases s.len(),
{
    let j = semi_pos(s) as int;
    let seg = trimmed(s.take(j));
    if starts_with(seg, cookie_prefix()) {
        Some(seg.skip(cookie_prefix().len() as int))
    } else if j < s.len() {
        cookie_token(s.skip(j + 1))
    } else {
        None
    }
}

/// Scans a cookie header for the fixed cookie's value.
pub fn token_in_cookie(s: &str) -> (r: Option<String>)
    ensures
        r.deep_view() == cookie_token(s@),
    decreases s@.len(),
{
    let n = s.unicode_len();
    let j = find_semi(s);
    proof {
        lemma_semi_pos(s@);
    }
    let seg = s.substring_char(0, j);
    let t = trim_ws(seg);
    if has_cookie_prefix(t.as_str()) {
        let plen = "CF_Authorization=".unicode_len();
        let tlen = t.as_str().unicode_len();
        let tail = t.as_str().substring_char(plen, tlen);
        let r = tail.to_owned();
        proof {
            assert(t@.subrange(plen as int, tlen as int) =~= t@.skip(cookie_prefix().len() as int));
            assert(s@.subrange(0, j as int) =~= s@.take(j as int));
        }
        Some(r)
    } else if j < n {
        let rest = s.substring_char(j + 1, n);
        let r = token_in_cookie(rest);
        proof {
            assert(rest@ =~= s@.skip(j as int + 1));
            assert(s@.subrange(0, j as int) =~= s@.take(j as int));
        }
        r
    } else {
        proof {
            assert(s@.subrange(0, j as int) =~= s@.take(j as int));
        }
        None
    }
}

/// The expected audience for a request: the dedicated header first, the
/// query parameter as fallback.
pub open spec fn chosen_audience(h: Option<Seq<char>>, q: Option<Seq<char>>) -> Option<Seq<char>> {
    match h {
        Some(a) => Some(a),
        None => q,
    }
}

pub fn choose_audience(header: Option<String>, query: Option<String>) -> (r: Option<String>)
    ensures
        r.deep_view() == chosen_audience(header.deep_view(), query.deep_view()),
{
    match header {
        Some(h) => Some(h),
        None => query,
    }
}

/// The presented token for a request: the dedicated header first, the named
/// cookie as fallback.
pub open spec fn token_source(h: Option<Seq<char>>, cookie: Option<Seq<char>>) -> Option<
    Seq<char>,
> {
    match h {
        Some(t) => Some(t),
        None => match cookie {
            Some(c) => cookie_token(c),
            None => None,
        },
    }
}

/// What the gateway does with a request before any validation: reject it for
/// a missing audience source, reject it for a missing token, or hand the two
/// extracted strings to the validator.
pub enum GateStep {
    MissingAudience,
    MissingToken,
    RunValidation(String, String),
}

/// Mathematical model of the gateway step.
pub enum GateView {
    MissingAudience,
    MissingToken,
    RunValidation(Seq<char>, Seq<char>),
}

impl DeepView for GateStep {
    type V = GateView;

    open spec fn deep_view(&self) -> GateView {
        match self {
            GateStep::MissingAudience => GateView::MissingAudience,
            GateStep::MissingToken => GateView::MissingToken,
            GateStep::RunValidation(t, a) => GateView::RunValidation(t@, a@),
        }
    }
}

pub open spec fn gate_outcome(
    ah: Option<Seq<char>>,
    aq: Option<Seq<char>>,
    th: Option<Seq<char>>,
    ch: Option<Seq<char>>,
) -> GateView {
    match chosen_audience(ah, aq) {
        None => GateView::MissingAudience,
        Some(aud) => match token_source(th, ch) {
            None => GateView::MissingToken,
            Some(t) => GateView::RunValidation(t, aud),
        },
    }
}

/// A request is turned away for a missing audience exactly when neither the
/// dedicated header nor the query parameter is present, whatever its token
/// sources hold; no key lookup and no signature verification is reached.
pub proof fn lemma_missing_audience_turned_away(
    ah: Option<Seq<char>>,
    aq: Option<Seq<char>>,
    th: Option<Seq<char>>,
    ch: Option<Seq<char>>,
)
    ensures
        (gate_outcome(ah, aq, th, ch) == GateView::MissingAudience) <==> (ah is None
            && aq is None),
{
}

/// Maps a request's four possible input sources to the gateway step. A
/// request with no audience source is turned away here, before any key
/// lookup or cryptographic work; so is one with no token source.
pub fn gate_request(
    aud_header: Option<String>,
    aud_query: Option<String>,
    token_header: Option<String>,
    cookie_header: Option<String>,
) -> (r: GateStep)
    ensures
        r.deep_view() == gate_outcome(
            aud_header.deep_view(),
            aud_query.deep_view(),
            token_header.deep_view(),
            cookie_header.deep_view(),
        ),
{
    let aud = choose_audience(aud_header, aud_query);
    match aud {
        None => GateStep::MissingAudience,
        Some(a) => {
            let tok = match token_header {
                Some(t) => Some(t),
                None => match cookie_header {
                    Some(c) => token_in_cookie(c.as_str()),
                    None => None,
                },
            };
            match tok {
                None => GateStep::MissingToken,
                Some(t) => GateStep::RunValidation(t, a),
            }
        },
    }
}

/// The fixed response headers every boundary response carries: the
/// connection-reuse hints and the cache-disabling set.
pub open spec fn fixed_headers() -> Seq<(Seq<char>, Seq<char>)> {
    seq![
        ("connection"@, "keep-alive"@),
        ("keep-alive"@, "timeout=120, max=10000"@),
        ("cache-control"@, "no-cache, no-store, must-revalidate"@),
        ("pragma"@, "no-cache"@),
        ("expires"@, "0"@),
    ]
}

pub fn response_headers() -> (r: Vec<(String, String)>)
    ensures
        r.deep_view() == fixed_headers(),
{
    let mut v: Vec<(String, String)> = Vec::new();
    v.push(("connection".to_owned(), "keep-alive".to_owned()));
    v.push(("keep-alive".to_owned(), "timeout=120, max=10000".to_owned()));
    v.push(("cache-control".to_owned(), "no-cache, no-store, must-revalidate".to_owned()));
    v.push(("pragma".to_owned(), "no-cache".to_owned()));
    v.push(("expires".to_owned(), "0".to_owned()));
    proof {
        assert(v.deep_view() =~= fixed_headers());
    }
    v
}

/// The status a validation outcome maps to: no-content on accept,
/// unauthorized on reject.
pub fn auth_status(o: Outcome) -> (s: u16)
    ensures
        s == (if o == Outcome::Accept {
            204u16
        } else {
            401u16
        }),
{
    if o == Outcome::Accept {
        204
    } else {
        401
    }
}

/// The liveness entry point's status: always success, independent of any
/// key-store or validator state (it takes none).
pub fn health_status() -> (s: u16)
    ensures
        s == 200,
{
    200
}

/// The administrative refresh entry point's status for a refresh outcome.
pub fn refresh_status(refreshed: bool) -> (s: u16)
    ensures
        s == (if refreshed {
            200u16
        } else {
            500u16
        }),
{
    if refreshed {
        200
    } else {
        500
    }
}

} // verus!
