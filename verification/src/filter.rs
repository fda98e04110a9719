//! URL/navigation blocking: the top-level navigation filter built from a tracker domain list.

use vstd::prelude::*;

use crate::text::{
    chars_of, compare_text, contains_chars, has_infix, joined, lemma_joined_push,
    lemma_text_less_asymmetric, lemma_text_less_transitive, lowercase, ascii_lower,
    ascii_lowercase, ascii_upper, ascii_uppercase, is_ascii_char, is_ascii_text,
    mapped, string_from_chars, text_less, to_lowercase, trim_chars, trimmed, append_mapped_chars,
    CharMap, TextOrder,
};

verus! {

/// The pieces of `s` between line feeds, in order. There is always at least one piece; the
/// last one is empty when `s` ends with a line feed or is empty.
pub open spec fn line_pieces(s: Seq<char>) -> Seq<Seq<char>>
    decreases s.len(),
{
    if s.len() == 0 {
        seq![Seq::empty()]
    } else {
        let r = line_pieces(s.drop_last());
        if s.last() == '\n' {
            r.push(Seq::empty())
        } else {
            r.update(r.len() - 1, r.last().push(s.last()))
        }
    }
}

pub proof fn lemma_line_pieces_nonempty(s: Seq<char>)
    ensures
        line_pieces(s).len() >= 1,
    decreases s.len(),
{
    if s.len() > 0 {
        lemma_line_pieces_nonempty(s.drop_last());
    }
}

/// A line of the list names a domain: after trimming it is neither empty nor a `#` comment.
pub open spec fn names_domain(line: Seq<char>) -> bool {
    let t = trimmed(line);
    t.len() > 0 && t[0] != '#'
}

/// The domains named by `lines`: each such line trimmed and lower-cased.
pub open spec fn listed_domains(lines: Seq<Seq<char>>) -> Set<Seq<char>>
    decreases lines.len(),
{
    if lines.len() == 0 {
        Set::empty()
    } else {
        let rest = listed_domains(lines.drop_last());
        if names_domain(lines.last()) {
            rest.insert(lowercase(trimmed(lines.last())))
        } else {
            rest
        }
    }
}

/// The domain set that a list text describes, one entry per line; blank lines and lines whose
/// first non-blank character is `#` are skipped (lines end at `\n`; `\r` is trimmed away).
pub open spec fn tracker_domains(text: Seq<char>) -> Set<Seq<char>> {
    listed_domains(line_pieces(text))
}

/// Some domain of `domains` occurs in the lower-cased `url`.
pub open spec fn blocked_by(domains: Set<Seq<char>>, url: Seq<char>) -> bool {
    exists|d: Seq<char>| #[trigger] domains.contains(d) && has_infix(lowercase(url), d)
}

/// Some domain of `domains` occurs in the ASCII lower-case form of `url`.
pub open spec fn ascii_blocked_by(domains: Set<Seq<char>>, url: Seq<char>) -> bool {
    exists|d: Seq<char>| #[trigger] domains.contains(d) && has_infix(ascii_lowercase(url), d)
}

/// Every element sorts strictly before every later one.
pub open spec fn strictly_ascending(s: Seq<Seq<char>>) -> bool {
    forall|i: int, j: int| 0 <= i < j < s.len() ==> text_less(#[trigger] s[i], #[trigger] s[j])
}

/// `d` as a double-quoted JavaScript string, with inner double quotes backslash-escaped.
pub open spec fn quoted(d: Seq<char>) -> Seq<char> {
    "\""@ + mapped(d, CharMap::Quote) + "\""@
}

/// A JavaScript array literal of the quoted `items`, in order, separated by commas.
pub open spec fn js_string_array(items: Seq<Seq<char>>) -> Seq<char> {
    "["@ + joined(items.map_values(|d: Seq<char>| quoted(d)), ","@) + "]"@
}

/// The set of blocked domains. Domains are kept in ascending order, each once, which stands for
/// the hash set of the navigation filter and gives the sorted order its JavaScript form needs.
pub struct BlockList {
    domains: Vec<Vec<char>>,
}

pub open spec fn views_of(v: Seq<Vec<char>>) -> Seq<Seq<char>> {
    v.map_values(|d: Vec<char>| d@)
}

impl View for BlockList {
    type V = Set<Seq<char>>;

    closed spec fn view(&self) -> Set<Seq<char>> {
        self.sorted_domains().to_set()
    }
}

impl BlockList {
    /// The blocked domains in ascending order.
    pub closed spec fn sorted_domains(&self) -> Seq<Seq<char>> {
        views_of(self.domains@)
    }

    #[verifier::type_invariant]
    closed spec fn domains_ascending(&self) -> bool {
        strictly_ascending(self.sorted_domains())
    }

    /// Builds the list from the text of a tracker list: one domain per line, trimmed and
    /// lower-cased; blank lines and `#` comments are skipped.
    pub fn load(list_text: &str) -> (bl: BlockList)
        ensures
            bl@ == tracker_domains(list_text@),
    {
        let chars = chars_of(list_text);
        let pieces = split_lines(&chars);
        let mut domains: Vec<Vec<char>> = Vec::new();
        let n = pieces.len();
        let mut i: usize = 0;
        while i < n
            invariant
                n == pieces@.len(),
                i <= n,
                views_of(pieces@) == line_pieces(list_text@),
                strictly_ascending(views_of(domains@)),
                views_of(domains@).to_set() == listed_domains(views_of(pieces@).take(i as int)),
            decreases n - i,
        {
            let t = trim_chars(&pieces[i]);
            proof {
                let ps = views_of(pieces@);
                assert(ps.take(i + 1).drop_last() =~= ps.take(i as int));
                assert(ps.take(i + 1).last() == pieces@[i as int]@);
            }
            if t.len() > 0 && t[0] != '#' {
                let text = string_from_chars(&t);
                let lower = to_lowercase(text.as_str());
                let d = chars_of(lower.as_str());
                insert_sorted(&mut domains, d);
            }
            i = i + 1;
        }
        assert(views_of(pieces@).take(n as int) =~= views_of(pieces@));
        BlockList { domains }
    }

    /// Whether navigation to `url` is blocked: some listed domain occurs in the lower-cased URL.
    pub fn is_blocked(&self, url: &str) -> (r: bool)
        ensures
            r == blocked_by(self@, url@),
            is_ascii_text(url@) ==> r == ascii_blocked_by(self@, url@),
    {
        proof {
            use_type_invariant(self);
        }
        let lower = to_lowercase(url);
        let u = chars_of(lower.as_str());
        let n = self.domains.len();
        let mut i: usize = 0;
        while i < n
            invariant
                n == self.domains@.len(),
                i <= n,
                u@ == lowercase(url@),
                is_ascii_text(url@) ==> u@ == ascii_lowercase(url@),
                forall|j: int| 0 <= j < i ==> !has_infix(u@, #[trigger] self.domains@[j]@),
            decreases n - i,
        {
            if contains_chars(&u, &self.domains[i]) {
                proof {
                    let d = self.domains@[i as int]@;
                    assert(self.sorted_domains()[i as int] == d);
                    assert(self@.contains(d));
                }
                return true;
            }
            i = i + 1;
        }
        proof {
            assert forall|d: Seq<char>| #[trigger] self@.contains(d) implies !has_infix(u@, d) by {
                let j = choose|j: int| 0 <= j < self.sorted_domains().len() && self.sorted_domains()[j] == d;
                assert(self.domains@[j]@ == d);
            }
        }
        false
    }

    /// The decision of the navigation handler: a navigation goes ahead unless blocking is on and
    /// the URL is blocked.
    pub fn allows(&self, blocking_enabled: bool, url: &str) -> (r: bool)
        ensures
            r == !(blocking_enabled && exists|d: Seq<char>| #[trigger] self@.contains(d)
                && has_infix(lowercase(url@), d)),
    {
        if blocking_enabled {
            !self.is_blocked(url)
        } else {
            true
        }
    }

    /// The domain list as a JavaScript array literal of double-quoted strings, in ascending
    /// order, for injection into pages.
    pub fn domains_as_js_array(&self) -> (r: String)
        ensures
            r@ == js_string_array(self.sorted_domains()),
            strictly_ascending(self.sorted_domains()),
            self.sorted_domains().to_set() == self@,
            self.sorted_domains().no_duplicates(),
    {
        proof {
            use_type_invariant(self);
            lemma_ascending_distinct(self.sorted_domains());
        }
        let mut out = String::new();
        out.append("[");
        let n = self.domains.len();
        let ghost items = self.sorted_domains().map_values(|d: Seq<char>| quoted(d));
        let mut i: usize = 0;
        while i < n
            invariant
                n == self.domains@.len(),
                i <= n,
                items == self.sorted_domains().map_values(|d: Seq<char>| quoted(d)),
                out@ == "["@ + joined(items.take(i as int), ","@),
            decreases n - i,
        {
            proof {
                assert(items.take(i + 1) =~= items.take(i as int).push(items[i as int]));
                lemma_joined_push(items.take(i as int), ","@, items[i as int]);
                assert(items[i as int] == quoted(self.domains@[i as int]@));
            }
            if i > 0 {
                out.append(",");
            }
            out.append("\"");
            append_mapped_chars(&mut out, &self.domains[i], CharMap::Quote);
            out.append("\"");
            i = i + 1;
        }
        out.append("]");
        assert(items.take(n as int) =~= items);
        out
    }
}

/// A strictly ascending list holds no element twice.
pub proof fn lemma_ascending_distinct(s: Seq<Seq<char>>)
    requires
        strictly_ascending(s),
    ensures
        s.no_duplicates(),
{
    assert forall|i: int, j: int| 0 <= i < s.len() && 0 <= j < s.len() && i != j implies s[i]
        != s[j] by {
        if i < j {
            lemma_text_less_asymmetric(s[i], s[j]);
        } else {
            lemma_text_less_asymmetric(s[j], s[i]);
        }
    }
}

/// Splits text into the pieces between line feeds.
fn split_lines(chars: &Vec<char>) -> (pieces: Vec<Vec<char>>)
    ensures
        views_of(pieces@) == line_pieces(chars@),
{
    let mut pieces: Vec<Vec<char>> = Vec::new();
    let mut cur: Vec<char> = Vec::new();
    let n = chars.len();
    let mut i: usize = 0;
    assert(chars@.take(0) =~= Seq::<char>::empty());
    assert(views_of(pieces@).push(cur@) =~= seq![Seq::<char>::empty()]);
    while i < n
        invariant
            n == chars@.len(),
            i <= n,
            views_of(pieces@).push(cur@) == line_pieces(chars@.take(i as int)),
        decreases n - i,
    {
        let c = chars[i];
        let ghost prefix = chars@.take(i + 1);
        assert(prefix.drop_last() =~= chars@.take(i as int));
        assert(prefix.last() == c);
        proof {
            lemma_line_pieces_nonempty(chars@.take(i as int));
        }
        if c == '\n' {
            let done = cur;
            pieces.push(done);
            cur = Vec::new();
            assert(views_of(pieces@).push(cur@) =~= line_pieces(prefix));
        } else {
            let ghost before = views_of(pieces@).push(cur@);
            cur.push(c);
            assert(views_of(pieces@).push(cur@) =~= before.update(
                before.len() - 1,
                before.last().push(c),
            ));
        }
        i = i + 1;
    }
    pieces.push(cur);
    assert(chars@.take(n as int) =~= chars@);
    pieces
}

/// Inserts `d` into a strictly ascending list unless it is already there.
fn insert_sorted(domains: &mut Vec<Vec<char>>, d: Vec<char>)
    requires
        strictly_ascending(views_of(old(domains)@)),
    ensures
        strictly_ascending(views_of(final(domains)@)),
        views_of(final(domains)@).to_set() == views_of(old(domains)@).to_set().insert(d@),
{
    let ghost old_v = views_of(domains@);
    let n = domains.len();
    let mut p: usize = 0;
    while p < n
        invariant
            n == domains@.len(),
            p <= n,
            domains@ == old(domains)@,
            old_v == views_of(old(domains)@),
            strictly_ascending(old_v),
            forall|j: int| 0 <= j < p ==> text_less(#[trigger] domains@[j]@, d@),
        ensures
            p <= n,
            p < n ==> text_less(d@, domains@[p as int]@),
        decreases n - p,
    {
        match compare_text(&domains[p], &d) {
            TextOrder::Before => {},
            TextOrder::Same => {
                assert(old_v.to_set().insert(d@) =~= old_v.to_set()) by {
                    assert(old_v[p as int] == d@);
                }
                return;
            },
            TextOrder::After => {
                break;
            },
        }
        p = p + 1;
    }
    let ghost dv = d@;
    domains.insert(p, d);
    proof {
        let new_v = views_of(domains@);
        assert(new_v =~= old_v.insert(p as int, dv));
        assert forall|i: int, j: int| 0 <= i < j < new_v.len() implies text_less(
            #[trigger] new_v[i],
            #[trigger] new_v[j],
        ) by {
            if j < p {
            } else if j == p {
                assert(text_less(old_v[i], dv));
            } else if i == p {
                if j - 1 > p {
                    lemma_text_less_transitive(dv, old_v[p as int], old_v[j - 1]);
                }
            } else if i < p {
                assert(text_less(old_v[i], old_v[j - 1]));
            } else {
                assert(text_less(old_v[i - 1], old_v[j - 1]));
            }
        }
        assert(new_v.to_set() =~= old_v.to_set().insert(dv)) by {
            assert forall|x: Seq<char>| new_v.contains(x) <==> old_v.contains(x) || x == dv by {
                if new_v.contains(x) {
                    let k = choose|k: int| 0 <= k < new_v.len() && new_v[k] == x;
                    if k < p {
                        assert(old_v[k] == x);
                    } else if k > p {
                        assert(old_v[k - 1] == x);
                    }
                }
                if old_v.contains(x) {
                    let k = choose|k: int| 0 <= k < old_v.len() && old_v[k] == x;
                    if k < p {
                        assert(new_v[k] == x);
                    } else {
                        assert(new_v[k + 1] == x);
                    }
                }
                if x == dv {
                    assert(new_v[p as int] == x);
                }
            }
        }
    }
}

} // verus!

verus! {

proof fn lemma_listed_contains(lines: Seq<Seq<char>>, i: int)
    requires
        0 <= i < lines.len(),
        names_domain(lines[i]),
    ensures
        listed_domains(lines).contains(lowercase(trimmed(lines[i]))),
    decreases lines.len(),
{
    if i < lines.len() - 1 {
        lemma_listed_contains(lines.drop_last(), i);
    }
}

/// Every line of the list that names a domain blocks each address that holds that domain
/// (trimmed and lower-cased) in its lower-cased form.
pub proof fn law_listed_domain_blocks(list_text: Seq<char>, i: int, url: Seq<char>)
    requires
        0 <= i < line_pieces(list_text).len(),
        names_domain(line_pieces(list_text)[i]),
        has_infix(lowercase(url), lowercase(trimmed(line_pieces(list_text)[i]))),
    ensures
        exists|d: Seq<char>| #[trigger] tracker_domains(list_text).contains(d) && has_infix(lowercase(url), d),
        blocked_by(tracker_domains(list_text), url),
{
    lemma_listed_contains(line_pieces(list_text), i);
    let d = lowercase(trimmed(line_pieces(list_text)[i]));
    assert(tracker_domains(list_text).contains(d) && has_infix(lowercase(url), d));
}

} // verus!

verus! {

/// Lower-casing keeps ASCII text ASCII, and lower-casing the ASCII upper- or lower-case form of
/// a character gives its lower-case form.
proof fn lemma_ascii_case_pairs(c: char)
    requires
        is_ascii_char(c),
    ensures
        is_ascii_char(ascii_upper(c)),
        is_ascii_char(ascii_lower(c)),
        ascii_lower(ascii_upper(c)) == ascii_lower(c),
        ascii_lower(ascii_lower(c)) == ascii_lower(c),
{
}

/// Any listed domain that occurs in the lower-cased URL blocks it, whatever its place in the
/// list; and a URL is blocked only through some listed domain that occurs in it. The same holds
/// of the ASCII lower-case form that decides ASCII URLs.
pub proof fn law_any_listed_domain_blocks(domains: Set<Seq<char>>, url: Seq<char>, d: Seq<char>)
    requires
        domains.contains(d),
    ensures
        has_infix(lowercase(url), d) ==> blocked_by(domains, url),
        has_infix(ascii_lowercase(url), d) ==> ascii_blocked_by(domains, url),
        blocked_by(domains, url) ==> exists|e: Seq<char>| domains.contains(e) && #[trigger] has_infix(lowercase(url), e),
        !blocked_by(domains, url) ==> !has_infix(lowercase(url), d),
{
}

/// For an ASCII URL, blocking ignores letter case: the URL, its upper-case form and its
/// lower-case form are blocked alike (each is ASCII, so `is_blocked` decides it by
/// `ascii_blocked_by`).
pub proof fn law_blocking_ignores_ascii_case(domains: Set<Seq<char>>, url: Seq<char>)
    requires
        is_ascii_text(url),
    ensures
        is_ascii_text(ascii_uppercase(url)),
        is_ascii_text(ascii_lowercase(url)),
        ascii_blocked_by(domains, url) == ascii_blocked_by(domains, ascii_uppercase(url)),
        ascii_blocked_by(domains, url) == ascii_blocked_by(domains, ascii_lowercase(url)),
{
    let up = ascii_uppercase(url);
    let low = ascii_lowercase(url);
    assert forall|i: int| 0 <= i < url.len() implies is_ascii_char(#[trigger] up[i]) && is_ascii_char(low[i])
        && ascii_lower(up[i]) == ascii_lower(url[i]) && ascii_lower(low[i]) == ascii_lower(url[i]) by {
        lemma_ascii_case_pairs(url[i]);
    }
    assert(ascii_lowercase(up) =~= ascii_lowercase(url));
    assert(ascii_lowercase(low) =~= ascii_lowercase(url));
}

} // verus!
