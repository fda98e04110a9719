//! What the address bar turns its text into.

use vstd::prelude::*;

use crate::text::{
    append_mapped_chars, chars_of, contains_char, has_prefix, mapped, starts_with_chars,
    string_from_chars, trim_chars, trimmed, CharMap,
};

verus! {

/// Where an empty address bar leads.
pub const SEARCH_HOME: &'static str = "https://duckduckgo.com";

/// The address a text typed into the address bar leads to: empty text goes to the search
/// page, an `http://` or `https://` address is kept, a dotted word without spaces gets
/// `https://`, anything else becomes a search with spaces as `+`.
pub open spec fn normalized_url(raw: Seq<char>) -> Seq<char> {
    let u = trimmed(raw);
    if u.len() == 0 {
        SEARCH_HOME@
    } else if has_prefix(u, "http://"@) || has_prefix(u, "https://"@) {
        u
    } else if u.contains('.') && !u.contains(' ') {
        "https://"@ + u
    } else {
        "https://duckduckgo.com/?q="@ + mapped(u, CharMap::Plus)
    }
}

/// The address to load for the text typed into the address bar.
pub fn normalize_url(raw: &str) -> (r: String)
    ensures
        r@ == normalized_url(raw@),
{
    let all = chars_of(raw);
    let u = trim_chars(&all);
    if u.len() == 0 {
        return SEARCH_HOME.to_owned();
    }
    let http = chars_of("http://");
    let https = chars_of("https://");
    if starts_with_chars(&u, &http) || starts_with_chars(&u, &https) {
        return string_from_chars(&u);
    }
    if contains_char(&u, '.') && !contains_char(&u, ' ') {
        let mut out = "https://".to_owned();
        let rest = string_from_chars(&u);
        out.append(rest.as_str());
        out
    } else {
        let mut out = "https://duckduckgo.com/?q=".to_owned();
        append_mapped_chars(&mut out, &u, CharMap::Plus);
        out
    }
}

} // verus!

verus! {

/// Whatever is typed, the address loaded is a web address: it starts with `http://` or
/// `https://`.
pub proof fn law_normalized_url_is_web_address(raw: Seq<char>)
    ensures
        has_prefix(normalized_url(raw), "http://"@) || has_prefix(normalized_url(raw), "https://"@),
{
    reveal_strlit("https://");
    reveal_strlit("https://duckduckgo.com");
    reveal_strlit("https://duckduckgo.com/?q=");
    let u = trimmed(raw);
    if u.len() == 0 {
        assert(SEARCH_HOME@.subrange(0, 8) =~= "https://"@);
    } else if has_prefix(u, "http://"@) || has_prefix(u, "https://"@) {
    } else if u.contains('.') && !u.contains(' ') {
        assert(("https://"@ + u).subrange(0, 8) =~= "https://"@);
    } else {
        let r = "https://duckduckgo.com/?q="@ + mapped(u, CharMap::Plus);
        assert(r.subrange(0, 8) =~= "https://"@);
    }
}

} // verus!
