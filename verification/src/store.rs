use vstd::prelude::*;

use crate::jwks::{
    candidate_accepted, jwk_accepted, jwks_document, parse_key_set, str_eq, JwkView,
};

verus! {

/// The verification-key material the store keeps for one key identifier.
pub struct RsaParts {
    pub n: Seq<char>,
    pub e: Seq<char>,
}

/// One stored key: identifier plus the modulus/exponent pair it verifies with.
pub struct KeyEntry {
    pub kid: String,
    pub n: String,
    pub e: String,
}

/// Mathematical model of a stored key.
pub struct KeyEntryView {
    pub kid: Seq<char>,
    pub n: Seq<char>,
    pub e: Seq<char>,
}

impl DeepView for KeyEntry {
    type V = KeyEntryView;

    open spec fn deep_view(&self) -> KeyEntryView {
        KeyEntryView { kid: self.kid@, n: self.n@, e: self.e@ }
    }
}

pub open spec fn entry_parts(en: KeyEntryView) -> RsaParts {
    RsaParts { n: en.n, e: en.e }
}

/// The mapping an entry sequence denotes: later entries win, as repeated
/// insertion under one key would.
pub open spec fn entries_map(s: Seq<KeyEntryView>) -> Map<Seq<char>, RsaParts>
    decreases s.len(),
{
    if s.len() == 0 {
        Map::empty()
    } else {
        entries_map(s.drop_last()).insert(s.last().kid, entry_parts(s.last()))
    }
}

/// The mapping a whole refresh builds from a candidate sequence: exactly the
/// candidates passing the four-constraint filter, inserted in document order.
pub open spec fn accepted_key_map(doc: Seq<JwkView>) -> Map<Seq<char>, RsaParts>
    decreases doc.len(),
{
    if doc.len() == 0 {
        Map::empty()
    } else {
        let m = accepted_key_map(doc.drop_last());
        if candidate_accepted(doc.last()) {
            m.insert(doc.last().kid, RsaParts { n: doc.last().n, e: doc.last().e })
        } else {
            m
        }
    }
}

/// How many candidates of a sequence pass the filter.
pub open spec fn accepted_count(doc: Seq<JwkView>) -> nat
    decreases doc.len(),
{
    if doc.len() == 0 {
        0
    } else {
        accepted_count(doc.drop_last()) + if candidate_accepted(doc.last()) {
            1nat
        } else {
            0nat
        }
    }
}

pub proof fn lemma_entries_map_push(s: Seq<KeyEntryView>, en: KeyEntryView)
    ensures
        entries_map(s.push(en)) == entries_map(s).insert(en.kid, entry_parts(en)),
{
    assert(s.push(en).drop_last() =~= s);
    assert(s.push(en).last() == en);
}

pub proof fn lemma_entries_map_at(s: Seq<KeyEntryView>, i: int)
    requires
        0 <= i < s.len(),
        forall|j: int| i < j < s.len() ==> s[j].kid != s[i].kid,
    ensures
        entries_map(s).contains_key(s[i].kid),
        entries_map(s)[s[i].kid] == entry_parts(s[i]),
    decreases s.len(),
{
    if i == s.len() - 1 {
        assert(s.last() == s[i]);
    } else {
        let t = s.drop_last();
        assert(t[i] == s[i]);
        lemma_entries_map_at(t, i);
        assert(s.last() == s[s.len() - 1]);
        assert(s.last().kid != s[i].kid);
    }
}

pub proof fn lemma_entries_map_absent(s: Seq<KeyEntryView>, k: Seq<char>)
    requires
        forall|i: int| 0 <= i < s.len() ==> s[i].kid != k,
    ensures
        !entries_map(s).contains_key(k),
    decreases s.len(),
{
    if s.len() > 0 {
        let t = s.drop_last();
        assert(forall|i: int| 0 <= i < t.len() ==> t[i] == s[i]);
        lemma_entries_map_absent(t, k);
        assert(s.last() == s[s.len() - 1]);
    }
}

/// A key identifier is retained in the rebuilt mapping iff some candidate
/// carrying it passes the four-constraint filter; no other candidate affects
/// whether it is retained.
pub proof fn lemma_candidate_retention(doc: Seq<JwkView>, kid: Seq<char>)
    ensures
        accepted_key_map(doc).contains_key(kid) <==> (exists|i: int|
            0 <= i < doc.len() && doc[i].kid == kid && candidate_accepted(doc[i])),
    decreases doc.len(),
{
    if doc.len() > 0 {
        let t = doc.drop_last();
        lemma_candidate_retention(t, kid);
        let last = doc.last();
        assert(last == doc[doc.len() - 1]);
        if candidate_accepted(last) && last.kid == kid {
            assert(doc[doc.len() - 1].kid == kid && candidate_accepted(doc[doc.len() - 1]));
        } else {
            assert((exists|i: int|
                0 <= i < doc.len() && doc[i].kid == kid && candidate_accepted(doc[i])) ==> (exists|
                i: int,
            |
                0 <= i < t.len() && t[i].kid == kid && candidate_accepted(t[i]))) by {
                if exists|i: int|
                    0 <= i < doc.len() && doc[i].kid == kid && candidate_accepted(doc[i]) {
                    let i = choose|i: int|
                        0 <= i < doc.len() && doc[i].kid == kid && candidate_accepted(doc[i]);
                    assert(i != doc.len() - 1);
                    assert(t[i] == doc[i]);
                    assert(t[i].kid == kid && candidate_accepted(t[i]));
                }
            };
            assert((exists|i: int|
                0 <= i < t.len() && t[i].kid == kid && candidate_accepted(t[i])) ==> (exists|
                i: int,
            |
                0 <= i < doc.len() && doc[i].kid == kid && candidate_accepted(doc[i]))) by {
                if exists|i: int| 0 <= i < t.len() && t[i].kid == kid && candidate_accepted(t[i]) {
                    let i = choose|i: int|
                        0 <= i < t.len() && t[i].kid == kid && candidate_accepted(t[i]);
                    assert(doc[i] == t[i]);
                    assert(doc[i].kid == kid && candidate_accepted(doc[i]));
                }
            };
        }
    }
}

/// Why a refresh failed: the retrieval itself, or a malformed document.
#[derive(Debug, Clone, Copy, PartialEq, Eq, Structural)]
pub enum FetchError {
    Network,
    Parse,
}

/// The process-wide cache of trusted signing keys, keyed by key identifier.
/// It is mutated only by full-replacement refresh, never by partial update.
pub struct KeyStore {
    entries: Vec<KeyEntry>,
}

impl View for KeyStore {
    type V = Map<Seq<char>, RsaParts>;

    closed spec fn view(&self) -> Map<Seq<char>, RsaParts> {
        entries_map(self.entries.deep_view())
    }
}

impl KeyStore {
    /// The store starts empty; keys arrive only through refresh.
    pub fn new() -> (s: KeyStore)
        ensures
            s@ == Map::<Seq<char>, RsaParts>::empty(),
    {
        let s = KeyStore { entries: Vec::new() };
        proof {
            assert(s.entries.deep_view() =~= Seq::<KeyEntryView>::empty());
        }
        s
    }

    /// Looks a key identifier up in the current snapshot. A miss is not an
    /// error by itself.
    pub fn lookup(&self, kid: &str) -> (r: Option<&KeyEntry>)
        ensures
            match r {
                Some(en) => self@.contains_key(kid@) && en.deep_view().kid == kid@ && entry_parts(
                    en.deep_view(),
                ) == self@[kid@],
                None => !self@.contains_key(kid@),
            },
    {
        let ghost s = self.entries.deep_view();
        let mut i: usize = self.entries.len();
        while i > 0
            invariant
                i <= self.entries.len(),
                s == self.entries.deep_view(),
                s.len() == self.entries.len(),
                forall|j: int| i <= j < s.len() ==> s[j].kid != kid@,
            decreases i,
        {
            let j = i - 1;
            if str_eq(self.entries[j].kid.as_str(), kid) {
                proof {
                    assert(s[j as int] == self.entries[j as int].deep_view());
                    lemma_entries_map_at(s, j as int);
                }
                return Some(&self.entries[j]);
            }
            i = j;
        }
        proof {
            lemma_entries_map_absent(s, kid@);
        }
        None
    }

    /// One full refresh step, fed the outcome of the retrieval: `None` when
    /// the retrieval itself failed, `Some(body)` with the retrieved document
    /// otherwise.
    ///
    /// The whole mapping is replaced in one assignment, computed entirely
    /// before the store is touched: an observer sees either the old snapshot
    /// or the new one, never a mixture. On any failure the previous contents
    /// are left fully intact. On success the result carries how many
    /// candidates were fetched and how many were accepted.
    pub fn refresh_with(&mut self, fetched: Option<&str>) -> (r: Result<
        (usize, usize),
        FetchError,
    >)
        ensures
            fetched is None ==> r == Err::<(usize, usize), FetchError>(FetchError::Network)
                && final(self)@ == old(self)@,
            fetched matches Some(b) ==> (jwks_document(b@) is None ==> r == Err::<
                (usize, usize),
                FetchError,
            >(FetchError::Parse) && final(self)@ == old(self)@),
            fetched matches Some(b) ==> (jwks_document(b@) matches Some(ks) ==> ({
                &&& r matches Ok(counts)
                &&& counts.0 == ks.len()
                &&& counts.1 == accepted_count(ks)
                &&& final(self)@ == accepted_key_map(ks)
            })),
    {
        match fetched {
            None => Err(FetchError::Network),
            Some(body) => match parse_key_set(body) {
                None => Err(FetchError::Parse),
                Some(doc) => {
                    let ghost doc_v = doc.deep_view();
                    let total = doc.len();
                    let mut accepted: usize = 0;
                    let mut fresh: Vec<KeyEntry> = Vec::new();
                    proof {
                        assert(doc_v.take(0) =~= Seq::<JwkView>::empty());
                        assert(fresh.deep_view() =~= Seq::<KeyEntryView>::empty());
                    }
                    let mut i: usize = 0;
                    while i < doc.len()
                        invariant
                            i <= doc.len(),
                            total == doc.len(),
                            doc_v == doc.deep_view(),
                            doc_v.len() == doc.len(),
                            accepted <= i,
                            entries_map(fresh.deep_view()) == accepted_key_map(
                                doc_v.take(i as int),
                            ),
                            accepted == accepted_count(doc_v.take(i as int)),
                        decreases doc.len() - i,
                    {
                        let ghost pre_fresh = fresh.deep_view();
                        let k = &doc[i];
                        let took = jwk_accepted(k);
                        if took {
                            fresh.push(
                                KeyEntry { kid: k.kid.clone(), n: k.n.clone(), e: k.e.clone() },
                            );
                            accepted = accepted + 1;
                        }
                        proof {
                            let pre = doc_v.take(i as int);
                            let post = doc_v.take(i as int + 1);
                            assert(post.drop_last() =~= pre);
                            assert(post.last() == doc_v[i as int]);
                            assert(doc_v[i as int] == doc[i as int].deep_view());
                            if took {
                                let en = KeyEntryView {
                                    kid: doc[i as int].kid@,
                                    n: doc[i as int].n@,
                                    e: doc[i as int].e@,
                                };
                                assert(fresh.deep_view() =~= pre_fresh.push(en));
                                lemma_entries_map_push(pre_fresh, en);
                            }
                        }
                        i = i + 1;
                    }
                    proof {
                        assert(doc_v.take(doc.len() as int) =~= doc_v);
                    }
                    self.entries = fresh;
                    Ok((total, accepted))
                },
            },
        }
    }
}

} // verus!
