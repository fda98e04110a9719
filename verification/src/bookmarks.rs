//! Bookmarks: the list of saved pages, newest first, one per URL.

use vstd::prelude::*;

use crate::clock::{is_timestamp, local_timestamp};
use crate::text::{has_prefix, starts_with_str};

verus! {

/// A saved page: its URL, the title shown for it, and when it was saved.
#[derive(Debug, Clone, PartialEq, Eq)]
pub struct Bookmark {
    pub url: String,
    pub title: String,
    pub timestamp: String,
}

impl Bookmark {
    /// A field-by-field copy.
    pub fn duplicate(&self) -> (r: Bookmark)
        ensures
            r == *self,
    {
        Bookmark {
            url: self.url.clone(),
            title: self.title.clone(),
            timestamp: self.timestamp.clone(),
        }
    }
}

/// Only real pages can be bookmarked: not an empty URL, not an `about:` page.
pub open spec fn is_bookmarkable(url: Seq<char>) -> bool {
    url.len() > 0 && !has_prefix(url, "about:"@)
}

/// Some bookmark of `list` has URL `url`.
pub open spec fn lists_url(list: Seq<Bookmark>, url: Seq<char>) -> bool {
    exists|k: int| 0 <= k < list.len() && (#[trigger] list[k]).url@ == url
}

/// The title a bookmark gets: the page title, or the URL when the title is empty.
pub open spec fn shown_title(title: Seq<char>, url: Seq<char>) -> Seq<char> {
    if title.len() == 0 {
        url
    } else {
        title
    }
}

/// `list` without the bookmarks whose URL is `url`, order kept.
pub open spec fn without_url(list: Seq<Bookmark>, url: Seq<char>) -> Seq<Bookmark>
    decreases list.len(),
{
    if list.len() == 0 {
        Seq::empty()
    } else {
        let rest = without_url(list.drop_last(), url);
        if list.last().url@ == url {
            rest
        } else {
            rest.push(list.last())
        }
    }
}

/// `new` is `old` with a bookmark for (`url`, `title`) in front.
pub open spec fn added_in_front(old: Seq<Bookmark>, new: Seq<Bookmark>, url: Seq<char>, title: Seq<char>) -> bool {
    &&& new.len() == old.len() + 1
    &&& new[0].url@ == url
    &&& new[0].title@ == shown_title(title, url)
    &&& new.skip(1) == old
}

/// Whether some bookmark of `list` has URL `url` (the toolbar star).
pub fn is_bookmarked(list: &Vec<Bookmark>, url: &str) -> (r: bool)
    ensures
        r == lists_url(list@, url@),
{
    let target = url.to_owned();
    let mut i: usize = 0;
    while i < list.len()
        invariant
            i <= list@.len(),
            target@ == url@,
            forall|j: int| 0 <= j < i ==> (#[trigger] list@[j]).url@ != url@,
        decreases list@.len() - i,
    {
        if list[i].url == target {
            return true;
        }
        i = i + 1;
    }
    false
}

/// Adds a bookmark stamped `timestamp` in front of the list, unless the URL cannot be
/// bookmarked or is already there. Returns whether the list changed (and must be saved).
pub fn add_at(url: &str, title: &str, timestamp: String, list: &mut Vec<Bookmark>) -> (added: bool)
    ensures
        added == (is_bookmarkable(url@) && !lists_url(old(list)@, url@)),
        added ==> added_in_front(old(list)@, final(list)@, url@, title@)
            && final(list)@[0].timestamp == timestamp,
        !added ==> final(list)@ == old(list)@,
{
    if url.is_empty() || starts_with_str(url, "about:") {
        return false;
    }
    if is_bookmarked(list, url) {
        return false;
    }
    let shown = if title.is_empty() {
        url.to_owned()
    } else {
        title.to_owned()
    };
    list.insert(0, Bookmark { url: url.to_owned(), title: shown, timestamp });
    assert(final(list)@.skip(1) =~= old(list)@);
    true
}

/// Adds a bookmark for the current page, stamped with the local time, unless the URL cannot be
/// bookmarked or is already there. Returns whether the list changed (and must be saved).
pub fn add(url: &str, title: &str, list: &mut Vec<Bookmark>) -> (added: bool)
    ensures
        added == (is_bookmarkable(url@) && !lists_url(old(list)@, url@)),
        added ==> added_in_front(old(list)@, final(list)@, url@, title@),
        added ==> is_timestamp(final(list)@[0].timestamp@),
        !added ==> final(list)@ == old(list)@,
{
    let now = local_timestamp();
    add_at(url, title, now, list)
}

/// Removes every bookmark with URL `url`. Returns whether something was removed (and the list
/// must be saved).
pub fn remove(url: &str, list: &mut Vec<Bookmark>) -> (removed: bool)
    ensures
        final(list)@ == without_url(old(list)@, url@),
        removed == lists_url(old(list)@, url@),
{
    let target = url.to_owned();
    let mut kept: Vec<Bookmark> = Vec::new();
    let n = list.len();
    let mut removed = false;
    let mut i: usize = 0;
    while i < n
        invariant
            n == list@.len(),
            i <= n,
            list@ == old(list)@,
            target@ == url@,
            kept@ == without_url(list@.take(i as int), url@),
            removed == lists_url(list@.take(i as int), url@),
        decreases n - i,
    {
        let ghost pre = list@.take(i as int);
        assert(list@.take(i + 1).drop_last() =~= pre);
        assert(list@.take(i + 1).last() == list@[i as int]);
        if list[i].url == target {
            removed = true;
            assert(list@.take(i + 1)[i as int].url@ == url@);
        } else {
            kept.push(list[i].duplicate());
        }
        proof {
            let post = list@.take(i + 1);
            if lists_url(post, url@) && !lists_url(pre, url@) {
                let k = choose|k: int| 0 <= k < post.len() && (#[trigger] post[k]).url@ == url@;
                if k < i {
                    assert(pre[k] == post[k]);
                }
            }
            if lists_url(pre, url@) {
                let k = choose|k: int| 0 <= k < pre.len() && (#[trigger] pre[k]).url@ == url@;
                assert(post[k] == pre[k]);
            }
        }
        i = i + 1;
    }
    assert(list@.take(n as int) =~= list@);
    *list = kept;
    removed
}

} // verus!

verus! {

proof fn lemma_without_url_absent(list: Seq<Bookmark>, url: Seq<char>)
    requires
        !lists_url(list, url),
    ensures
        without_url(list, url) == list,
    decreases list.len(),
{
    if list.len() > 0 {
        let rest = list.drop_last();
        assert(!lists_url(rest, url)) by {
            if lists_url(rest, url) {
                let k = choose|k: int| 0 <= k < rest.len() && (#[trigger] rest[k]).url@ == url;
                assert(list[k] == rest[k]);
            }
        }
        lemma_without_url_absent(rest, url);
        assert(list[list.len() - 1].url@ != url);
        assert(rest.push(list.last()) =~= list);
    }
}

proof fn lemma_without_url_front(b: Bookmark, rest: Seq<Bookmark>, url: Seq<char>)
    ensures
        without_url(seq![b] + rest, url) == if b.url@ == url {
            without_url(rest, url)
        } else {
            seq![b] + without_url(rest, url)
        },
    decreases rest.len(),
{
    let whole = seq![b] + rest;
    if rest.len() == 0 {
        assert(whole.drop_last() =~= Seq::<Bookmark>::empty());
        assert(whole.last() == b);
        assert(without_url(rest, url) == Seq::<Bookmark>::empty());
        assert(without_url(whole.drop_last(), url) == Seq::<Bookmark>::empty());
        assert(seq![b] + Seq::<Bookmark>::empty() =~= seq![b]);
        assert(Seq::<Bookmark>::empty().push(b) =~= seq![b]);
    } else {
        assert(whole.drop_last() =~= seq![b] + rest.drop_last());
        assert(whole.last() == rest.last());
        lemma_without_url_front(b, rest.drop_last(), url);
        let w = without_url(rest.drop_last(), url);
        assert(without_url(rest, url) == if rest.last().url@ == url {
            w
        } else {
            w.push(rest.last())
        });
        if b.url@ != url {
            assert((seq![b] + w).push(rest.last()) =~= seq![b] + w.push(rest.last()));
        }
    }
}

proof fn lemma_without_url_drops(list: Seq<Bookmark>, url: Seq<char>)
    ensures
        !lists_url(without_url(list, url), url),
    decreases list.len(),
{
    if list.len() > 0 {
        lemma_without_url_drops(list.drop_last(), url);
        let rest = without_url(list.drop_last(), url);
        if list.last().url@ != url {
            assert forall|k: int| 0 <= k < rest.len() + 1 implies (#[trigger] rest.push(list.last())[k]).url@ != url by {
                if k < rest.len() {
                    assert(rest.push(list.last())[k] == rest[k]);
                }
            }
        }
    }
}

/// After a bookmark was added for a page, the page is listed, so adding it again changes
/// nothing.
pub proof fn law_added_page_is_listed(old: Seq<Bookmark>, new: Seq<Bookmark>, url: Seq<char>, title: Seq<char>)
    requires
        added_in_front(old, new, url, title),
    ensures
        lists_url(new, url),
        !(is_bookmarkable(url) && !lists_url(new, url)),
{
    assert(new[0].url@ == url);
}

/// Removing a page that was just added gives back the list from before the addition.
pub proof fn law_remove_undoes_add(old: Seq<Bookmark>, new: Seq<Bookmark>, url: Seq<char>, title: Seq<char>)
    requires
        added_in_front(old, new, url, title),
        !lists_url(old, url),
    ensures
        without_url(new, url) == old,
{
    assert(new =~= seq![new[0]] + new.skip(1));
    lemma_without_url_front(new[0], old, url);
    lemma_without_url_absent(old, url);
}

/// After a removal, the page is no longer listed.
pub proof fn law_removed_page_is_gone(list: Seq<Bookmark>, url: Seq<char>)
    ensures
        !lists_url(without_url(list, url), url),
{
    lemma_without_url_drops(list, url);
}

} // verus!
