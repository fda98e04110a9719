//! Browsing history: which visits are recorded, and how the stored visits are read back
//! (newest first, one entry per URL, capped).

use vstd::prelude::*;

use crate::clock::{is_timestamp, local_timestamp};
use crate::text::{has_prefix, starts_with_str};

verus! {

/// At most this many URLs are offered for autocomplete.
pub const MAX_ENTRIES: usize = 500;

/// One visit: the page's URL and title and when it was visited.
#[derive(Debug, Clone, PartialEq, Eq)]
pub struct HistoryEntry {
    pub url: String,
    pub title: String,
    pub timestamp: String,
}

/// Visits to empty URLs and to `about:` pages are not recorded.
pub open spec fn is_recorded(url: Seq<char>) -> bool {
    url.len() > 0 && !has_prefix(url, "about:"@)
}

/// Whether a visit to `url` is recorded.
pub fn should_record(url: &str) -> (r: bool)
    ensures
        r == is_recorded(url@),
{
    !(url.is_empty() || starts_with_str(url, "about:"))
}

/// The entry to record for a visit at `timestamp`, or `None` when the visit is not recorded.
pub fn entry_at(url: &str, title: &str, timestamp: String) -> (r: Option<HistoryEntry>)
    ensures
        r is Some <==> is_recorded(url@),
        r matches Some(e) ==> e.url@ == url@ && e.title@ == title@ && e.timestamp == timestamp,
{
    if should_record(url) {
        Some(HistoryEntry { url: url.to_owned(), title: title.to_owned(), timestamp })
    } else {
        None
    }
}

/// The entry to record for a visit now (stamped with the local time), or `None` when the visit
/// is not recorded.
pub fn entry_for(url: &str, title: &str) -> (r: Option<HistoryEntry>)
    ensures
        r is Some <==> is_recorded(url@),
        r matches Some(e) ==> e.url@ == url@ && e.title@ == title@ && is_timestamp(e.timestamp@),
{
    let now = local_timestamp();
    entry_at(url, title, now)
}

/// Some entry of `d` has URL `u`.
pub open spec fn has_url(d: Seq<HistoryEntry>, u: Seq<char>) -> bool {
    exists|k: int| 0 <= k < d.len() && (#[trigger] d[k]).url@ == u
}

/// The entries of `s` whose URL has not appeared earlier in `s`, in order.
pub open spec fn distinct_by_url(s: Seq<HistoryEntry>) -> Seq<HistoryEntry>
    decreases s.len(),
{
    if s.len() == 0 {
        Seq::empty()
    } else {
        let d = distinct_by_url(s.drop_last());
        if has_url(d, s.last().url@) {
            d
        } else {
            d.push(s.last())
        }
    }
}

/// The entries as stored (oldest first), newest first, one per URL (its newest visit).
pub open spec fn newest_distinct(stored: Seq<HistoryEntry>) -> Seq<HistoryEntry> {
    distinct_by_url(stored.reverse())
}

/// The URLs offered for autocomplete: newest first, each once, at most `MAX_ENTRIES`.
pub open spec fn recent_urls(stored: Seq<HistoryEntry>) -> Seq<Seq<char>> {
    newest_distinct(stored).map_values(|e: HistoryEntry| e.url@).take(
        min(MAX_ENTRIES as int, newest_distinct(stored).len() as int),
    )
}

pub open spec fn min(a: int, b: int) -> int {
    if a <= b {
        a
    } else {
        b
    }
}

/// `p` is a prefix of `s`.
pub open spec fn is_prefix_of<A>(p: Seq<A>, s: Seq<A>) -> bool {
    p.len() <= s.len() && s.take(p.len() as int) == p
}

proof fn lemma_distinct_step(s: Seq<HistoryEntry>)
    requires
        s.len() > 0,
    ensures
        is_prefix_of(distinct_by_url(s.drop_last()), distinct_by_url(s)),
{
    let d = distinct_by_url(s.drop_last());
    assert(d.push(s.last()).take(d.len() as int) =~= d);
    assert(d.take(d.len() as int) =~= d);
}

/// Reading fewer stored entries only shortens the distinct list: it is a prefix.
pub proof fn lemma_distinct_prefix(s: Seq<HistoryEntry>, k: int)
    requires
        0 <= k <= s.len(),
    ensures
        is_prefix_of(distinct_by_url(s.take(k)), distinct_by_url(s)),
    decreases s.len() - k,
{
    if k == s.len() {
        assert(s.take(k) =~= s);
        let d = distinct_by_url(s);
        assert(d.take(d.len() as int) =~= d);
    } else {
        lemma_distinct_prefix(s, k + 1);
        let t = s.take(k + 1);
        assert(t.drop_last() =~= s.take(k));
        lemma_distinct_step(t);
        let a = distinct_by_url(s.take(k));
        let b = distinct_by_url(t);
        let c = distinct_by_url(s);
        assert(c.take(a.len() as int) =~= b.take(a.len() as int));
    }
}

/// The URLs of the stored visits (given oldest first, as the file holds them) offered for
/// autocomplete: newest first, each URL once, at most `MAX_ENTRIES`.
pub fn load_urls(stored: Vec<HistoryEntry>) -> (urls: Vec<String>)
    ensures
        urls@.map_values(|u: String| u@) == recent_urls(stored@),
{
    let entries = load_entries(stored, MAX_ENTRIES);
    let mut urls: Vec<String> = Vec::new();
    let n = entries.len();
    let mut i: usize = 0;
    while i < n
        invariant
            n == entries@.len(),
            i <= n,
            urls@.map_values(|u: String| u@) == entries@.map_values(|e: HistoryEntry| e.url@).take(i as int),
        decreases n - i,
    {
        let u = entries[i].url.clone();
        let ghost before = urls@;
        urls.push(u);
        proof {
            let f = |u: String| u@;
            let g = |e: HistoryEntry| e.url@;
            assert(urls@ =~= before.push(u));
            assert(before.push(u).map_values(f) =~= before.map_values(f).push(u@));
            assert(entries@.map_values(g).take(i + 1) =~= entries@.map_values(g).take(i as int).push(u@));
        }
        i = i + 1;
    }
    proof {
        let d = newest_distinct(stored@);
        assert(entries@.map_values(|e: HistoryEntry| e.url@).take(n as int) =~= entries@.map_values(|e: HistoryEntry| e.url@));
        assert(entries@.map_values(|e: HistoryEntry| e.url@) =~= d.map_values(|e: HistoryEntry| e.url@).take(
            min(MAX_ENTRIES as int, d.len() as int),
        ));
    }
    urls
}

/// The stored visits (given oldest first) newest first, one entry per URL (its newest visit).
/// At most `cap` entries are returned: the first `cap` of them.
#[verifier::loop_isolation(false)]
pub fn load_entries(stored: Vec<HistoryEntry>, cap: usize) -> (out: Vec<HistoryEntry>)
    ensures
        out@ == newest_distinct(stored@).take(min(cap as int, newest_distinct(stored@).len() as int)),
{
    if cap == 0 {
        return Vec::new();
    }
    let ghost orig = stored@;
    let ghost rev = orig.reverse();
    let n = stored.len();
    let limit: usize = cap;
    let mut rest = stored;
    let mut out: Vec<HistoryEntry> = Vec::new();
    assert(rev.take(0) =~= Seq::<HistoryEntry>::empty());
    while rest.len() > 0
        invariant
            n == orig.len(),
            rev == orig.reverse(),
            rest@ == orig.take(rest@.len() as int),
            rest@.len() <= n,
            out@ == distinct_by_url(rev.take(n - rest@.len())),
            out@.len() < limit,
            limit == cap,
        decreases rest@.len(),
    {
        let k = rest.len();
        let e = rest.pop().unwrap();
        let ghost m = n - k;
        proof {
            assert(rev.take(m + 1).drop_last() =~= rev.take(m));
            assert(rev.take(m + 1).last() == orig[k - 1]);
            assert(rest@ =~= orig.take(k - 1));
        }
        let mut seen = false;
        let mut j: usize = 0;
        while j < out.len()
            invariant
                j <= out@.len(),
                seen == exists|q: int| 0 <= q < j && (#[trigger] out@[q]).url@ == e.url@,
            decreases out@.len() - j,
        {
            if out[j].url == e.url {
                seen = true;
            }
            j = j + 1;
        }
        proof {
            let d = distinct_by_url(rev.take(m));
            assert(seen == has_url(d, e.url@));
        }
        if !seen {
            out.push(e);
            if out.len() >= limit {
                proof {
                    lemma_distinct_prefix(rev, m + 1);
                    let d = distinct_by_url(rev);
                    assert(d.take(limit as int) == out@);
                    assert(d.len() >= limit);
                    assert(newest_distinct(orig) == d);
                    assert(min(limit as int, d.len() as int) == limit as int);
                }
                return out;
            }
        }
    }
    proof {
        assert(rev.take(n as int) =~= rev);
        let d = distinct_by_url(rev);
        assert(d.take(d.len() as int) =~= d);
    }
    out
}

} // verus!

verus! {

/// The distinct list names each URL once, holds only entries of `s`, and names every URL of
/// `s`.
pub proof fn lemma_distinct_by_url(s: Seq<HistoryEntry>)
    ensures
        forall|i: int, j: int|
            0 <= i < j < distinct_by_url(s).len() ==> (#[trigger] distinct_by_url(s)[i]).url@
                != (#[trigger] distinct_by_url(s)[j]).url@,
        forall|i: int|
            0 <= i < distinct_by_url(s).len() ==> s.contains(#[trigger] distinct_by_url(s)[i]),
        forall|k: int| 0 <= k < s.len() ==> has_url(distinct_by_url(s), (#[trigger] s[k]).url@),
    decreases s.len(),
{
    if s.len() > 0 {
        let rest = s.drop_last();
        lemma_distinct_by_url(rest);
        let d = distinct_by_url(rest);
        let x = s.last();
        assert forall|i: int| 0 <= i < distinct_by_url(s).len() implies s.contains(
            #[trigger] distinct_by_url(s)[i],
        ) by {
            if i < d.len() {
                assert(rest.contains(d[i]));
                let k = choose|k: int| 0 <= k < rest.len() && rest[k] == d[i];
                assert(s[k] == d[i]);
            } else {
                assert(s[s.len() - 1] == x);
            }
        }
        assert forall|k: int| 0 <= k < s.len() implies has_url(distinct_by_url(s), (#[trigger] s[k]).url@) by {
            if k < rest.len() {
                assert(rest[k] == s[k]);
                assert(has_url(d, rest[k].url@));
                let q = choose|q: int| 0 <= q < d.len() && (#[trigger] d[q]).url@ == rest[k].url@;
                assert(distinct_by_url(s)[q] == d[q]);
            } else {
                if !has_url(d, x.url@) {
                    assert(distinct_by_url(s)[d.len() as int] == x);
                }
            }
        }
    }
}

/// Each kept entry is the first entry of `s` with its URL.
pub proof fn lemma_distinct_keeps_first(s: Seq<HistoryEntry>)
    ensures
        forall|i: int|
            0 <= i < distinct_by_url(s).len() ==> exists|k: int|
                0 <= k < s.len() && s[k] == #[trigger] distinct_by_url(s)[i] && forall|j: int|
                    0 <= j < k ==> (#[trigger] s[j]).url@ != s[k].url@,
    decreases s.len(),
{
    if s.len() > 0 {
        let rest = s.drop_last();
        lemma_distinct_keeps_first(rest);
        lemma_distinct_by_url(rest);
        let d = distinct_by_url(rest);
        assert forall|i: int| 0 <= i < distinct_by_url(s).len() implies exists|k: int|
            0 <= k < s.len() && s[k] == #[trigger] distinct_by_url(s)[i] && forall|j: int|
                0 <= j < k ==> (#[trigger] s[j]).url@ != s[k].url@ by {
            if i < d.len() {
                let k = choose|k: int|
                    0 <= k < rest.len() && rest[k] == #[trigger] d[i] && forall|j: int|
                        0 <= j < k ==> (#[trigger] rest[j]).url@ != rest[k].url@;
                assert(s[k] == rest[k]);
                assert forall|j: int| 0 <= j < k implies (#[trigger] s[j]).url@ != s[k].url@ by {
                    assert(s[j] == rest[j]);
                }
            } else {
                let k = s.len() - 1;
                assert forall|j: int| 0 <= j < k implies (#[trigger] s[j]).url@ != s[k].url@ by {
                    assert(s[j] == rest[j]);
                    assert(has_url(d, rest[j].url@));
                }
            }
        }
    }
}

/// The entry kept for each URL is its newest visit: no later stored visit has that URL.
pub proof fn law_kept_entry_is_newest_visit(stored: Seq<HistoryEntry>, i: int)
    requires
        0 <= i < newest_distinct(stored).len(),
    ensures
        exists|k: int|
            0 <= k < stored.len() && stored[k] == newest_distinct(stored)[i] && forall|j: int|
                k < j < stored.len() ==> (#[trigger] stored[j]).url@ != stored[k].url@,
{
    let r = stored.reverse();
    lemma_distinct_keeps_first(r);
    let d = distinct_by_url(r);
    let q = choose|q: int|
        0 <= q < r.len() && r[q] == #[trigger] d[i] && forall|j: int|
            0 <= j < q ==> (#[trigger] r[j]).url@ != r[q].url@;
    let k = stored.len() - 1 - q;
    assert(stored[k] == r[q]);
    assert forall|j: int| k < j < stored.len() implies (#[trigger] stored[j]).url@ != stored[k].url@ by {
        assert(r[stored.len() - 1 - j] == stored[j]);
    }
}

/// The autocomplete list names no URL twice.
pub proof fn law_recent_urls_distinct(stored: Seq<HistoryEntry>)
    ensures
        recent_urls(stored).no_duplicates(),
{
    lemma_distinct_by_url(stored.reverse());
}

/// The autocomplete list holds at most `MAX_ENTRIES` URLs.
pub proof fn law_recent_urls_capped(stored: Seq<HistoryEntry>)
    ensures
        recent_urls(stored).len() <= MAX_ENTRIES,
{
}

/// Every URL offered was visited.
pub proof fn law_recent_urls_visited(stored: Seq<HistoryEntry>, u: Seq<char>)
    requires
        recent_urls(stored).contains(u),
    ensures
        exists|k: int| 0 <= k < stored.len() && (#[trigger] stored[k]).url@ == u,
{
    let r = stored.reverse();
    lemma_distinct_by_url(r);
    let d = distinct_by_url(r);
    let i = choose|i: int| 0 <= i < recent_urls(stored).len() && recent_urls(stored)[i] == u;
    assert(d[i].url@ == u);
    assert(r.contains(d[i]));
    let q = choose|q: int| 0 <= q < r.len() && r[q] == d[i];
    assert(stored[stored.len() - 1 - q] == r[q]);
}

/// While there are at most `MAX_ENTRIES` distinct URLs, every visited URL is offered.
pub proof fn law_recent_urls_complete(stored: Seq<HistoryEntry>, k: int)
    requires
        newest_distinct(stored).len() <= MAX_ENTRIES,
        0 <= k < stored.len(),
    ensures
        recent_urls(stored).contains(stored[k].url@),
{
    let r = stored.reverse();
    lemma_distinct_by_url(r);
    let d = distinct_by_url(r);
    let q = stored.len() - 1 - k;
    assert(r[q] == stored[k]);
    assert(has_url(d, r[q].url@));
    let i = choose|i: int| 0 <= i < d.len() && (#[trigger] d[i]).url@ == r[q].url@;
    assert(recent_urls(stored)[i] == stored[k].url@);
}

/// Loaded entries name no URL twice.
pub proof fn law_loaded_entries_distinct(stored: Seq<HistoryEntry>, n: int)
    requires
        0 <= n <= newest_distinct(stored).len(),
    ensures
        forall|i: int, j: int|
            0 <= i < j < n ==> (#[trigger] newest_distinct(stored).take(n)[i]).url@
                != (#[trigger] newest_distinct(stored).take(n)[j]).url@,
{
    lemma_distinct_by_url(stored.reverse());
    let d = newest_distinct(stored);
    assert forall|i: int, j: int| 0 <= i < j < n implies (#[trigger] d.take(n)[i]).url@
        != (#[trigger] d.take(n)[j]).url@ by {
        assert(d.take(n)[i] == d[i]);
        assert(d.take(n)[j] == d[j]);
    }
}

} // verus!
