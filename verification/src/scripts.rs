//! The scripts the browser sends to its toolbar and pages, and the bookmarks page, as exact
//! texts.

use vstd::prelude::*;

use crate::bookmarks::{shown_title, Bookmark};
use crate::tabs::{TabMeta, TabView};
use crate::text::{append_mapped, decimal, joined, lemma_joined_push, mapped, push_decimal, CharMap};

verus! {

/// The start of the bookmarks page, up to its list.
pub const BOOKMARKS_PAGE_HEAD: &'static str = "<!DOCTYPE html><html><head><meta charset=\"utf-8\">\n<title>Favoritos — Bauer Browser</title>\n<style>\n*{box-sizing:border-box;margin:0;padding:0}\nbody{font-family:system-ui,-apple-system,sans-serif;background:#1e2030;color:#c0caf5;\n      padding:48px 24px;max-width:720px;margin:0 auto}\nh1{color:#7aa2f7;font-size:22px;margin-bottom:24px}\nul{list-style:none}\nli{padding:14px 0;border-bottom:1px solid #2a2d3e}\na{color:#7dcfff;font-size:15px;text-decoration:none;display:block;margin-bottom:4px}\na:hover{color:#c0caf5;text-decoration:underline}\n.url{display:block;font-size:11px;color:#565f89}\np.empty{color:#565f89;text-align:center;margin-top:60px;line-height:2}\n</style></head><body>\n<h1>☆ Favoritos</h1>\n";

/// The end of the bookmarks page, after its list.
pub const BOOKMARKS_PAGE_TAIL: &'static str = "\n</body></html>";

/// What the bookmarks page shows when there are none.
pub const NO_BOOKMARKS: &'static str = "<p class=\"empty\">Nenhum favorito ainda.<br>Clique ☆ na toolbar para adicionar.</p>";

/// Asks a page for its text and address (for a summary); the page answers over IPC.
pub const EXTRACT_CONTENT_JS: &'static str = "try{window.ipc.postMessage(JSON.stringify({action:'pageContent',content:document.body.innerText.substring(0,8000),url:window.location.href}));}catch(_){}";

/// Placeholder script for the content pages' IPC bridge.
pub const CONTENT_IPC_JS: &'static str = "(function(){})();";

pub open spec fn bool_text(b: bool) -> Seq<char> {
    if b {
        "true"@
    } else {
        "false"@
    }
}

/// `text` as a single-quoted JavaScript string body.
pub open spec fn js(text: Seq<char>) -> Seq<char> {
    mapped(text, CharMap::Js)
}

/// `text` as a JSON string (what `serde_json::to_string` writes for a string).
pub open spec fn json_string(text: Seq<char>) -> Seq<char> {
    "\""@ + mapped(text, CharMap::Json) + "\""@
}

/// `text` with HTML special characters escaped.
pub open spec fn html(text: Seq<char>) -> Seq<char> {
    mapped(text, CharMap::Html)
}

/// Sets the reader mode button.
pub open spec fn reader_mode_script(on: bool) -> Seq<char> {
    "if(typeof setReaderMode==='function')setReaderMode("@ + bool_text(on) + ")"@
}

/// Sets the bookmark star.
pub open spec fn bookmark_state_script(on: bool) -> Seq<char> {
    "if(typeof setBookmarkState==='function')setBookmarkState("@ + bool_text(on) + ")"@
}

/// Shows `url` in the address bar.
pub open spec fn url_bar_script(url: Seq<char>) -> Seq<char> {
    "if(typeof setUrlBar==='function')setUrlBar('"@ + js(url) + "')"@
}

/// Adds `url` to the address bar's suggestions.
pub open spec fn history_add_script(url: Seq<char>) -> Seq<char> {
    "if(typeof addToHistory==='function')addToHistory('"@ + js(url) + "')"@
}

/// Shows `text` in the agent panel.
pub open spec fn agent_panel_script(text: Seq<char>) -> Seq<char> {
    "if(typeof showAgent==='function')showAgent('"@ + js(text) + "')"@
}

/// Reports the state of a download.
pub open spec fn download_script(filename: Seq<char>, status: Seq<char>) -> Seq<char> {
    "if(typeof showDownload==='function')showDownload('"@ + js(filename) + "','"@ + status + "')"@
}

/// The JSON array of `items` (what `serde_json::to_string` writes for a list of strings).
pub open spec fn json_string_list(items: Seq<Seq<char>>) -> Seq<char> {
    "["@ + joined(items.map_values(|u: Seq<char>| json_string(u)), ","@) + "]"@
}

/// Hands the address bar its suggestions.
pub open spec fn history_list_script(urls: Seq<Seq<char>>) -> Seq<char> {
    "if(typeof setHistory==='function')setHistory("@ + json_string_list(urls) + ")"@
}

/// The window title for a page named `name`.
pub open spec fn window_title(name: Seq<char>) -> Seq<char> {
    name + " \u{2014} Bauer Browser"@
}

/// One tab for the tab bar.
pub open spec fn tab_entry(t: TabView) -> Seq<char> {
    "{\"title\":\""@ + js(t.title) + "\",\"url\":\""@ + js(t.url) + "\"}"@
}

/// Redraws the tab bar with the first `open_count` tabs, `active` selected.
pub open spec fn tabs_script(tabs: Seq<TabView>, open_count: nat, active: nat, max_tabs: nat) -> Seq<char> {
    "if(typeof updateTabs==='function')updateTabs(["@ + joined(
        tabs.take(open_count as int).map_values(|t: TabView| tab_entry(t)),
        ","@,
    ) + "],"@ + decimal(active) + ","@ + decimal(max_tabs) + ")"@
}

/// One bookmark of the bookmarks page.
pub open spec fn bookmark_row(b: Bookmark) -> Seq<char> {
    "<li><a href=\""@ + html(b.url@) + "\">"@ + html(shown_title(b.title@, b.url@))
        + "</a><span class=\"url\">"@ + html(b.url@) + "</span></li>"@
}

/// All rows, in order.
pub open spec fn bookmark_rows(list: Seq<Bookmark>) -> Seq<char>
    decreases list.len(),
{
    if list.len() == 0 {
        Seq::empty()
    } else {
        bookmark_rows(list.drop_last()) + bookmark_row(list.last())
    }
}

/// The bookmarks page: the list of bookmarks, or a note that there are none.
pub open spec fn bookmarks_page(list: Seq<Bookmark>) -> Seq<char> {
    BOOKMARKS_PAGE_HEAD@ + (if list.len() == 0 {
        NO_BOOKMARKS@
    } else {
        "<ul>"@ + bookmark_rows(list) + "</ul>"@
    }) + BOOKMARKS_PAGE_TAIL@
}

/// Replaces a page with `page`.
pub open spec fn write_page_script(page: Seq<char>) -> Seq<char> {
    "document.open();document.write("@ + json_string(page) + ");document.close();"@
}

/// The script every page gets at load: the blocked domains, then the ad blocker, then the
/// IPC bridge.
pub open spec fn init_script_text(domains_js: Seq<char>, adblock_js: Seq<char>) -> Seq<char> {
    "var __BAUER_BLOCKED__="@ + domains_js + ";\n"@ + adblock_js + "\n"@ + CONTENT_IPC_JS@
}

fn push_bool(out: &mut String, b: bool)
    ensures
        final(out)@ == old(out)@ + bool_text(b),
{
    if b {
        out.append("true");
    } else {
        out.append("false");
    }
}

/// `text` with HTML special characters escaped.
pub fn html_escape(text: &str) -> (r: String)
    ensures
        r@ == html(text@),
{
    let mut out = String::new();
    append_mapped(&mut out, text, CharMap::Html);
    out
}

/// `text` escaped for a single-quoted JavaScript string: backslash and quote escaped, line
/// feeds become spaces, carriage returns are dropped.
pub fn js_escape(text: &str) -> (r: String)
    ensures
        r@ == js(text@),
{
    let mut out = String::new();
    append_mapped(&mut out, text, CharMap::Js);
    out
}

/// `text` as a JSON string literal.
pub fn json_quote(text: &str) -> (r: String)
    ensures
        r@ == json_string(text@),
{
    let mut out = "\"".to_owned();
    append_mapped(&mut out, text, CharMap::Json);
    out.append("\"");
    out
}

pub fn reader_mode_js(on: bool) -> (r: String)
    ensures
        r@ == reader_mode_script(on),
{
    let mut out = "if(typeof setReaderMode==='function')setReaderMode(".to_owned();
    push_bool(&mut out, on);
    out.append(")");
    out
}

pub fn bookmark_state_js(on: bool) -> (r: String)
    ensures
        r@ == bookmark_state_script(on),
{
    let mut out = "if(typeof setBookmarkState==='function')setBookmarkState(".to_owned();
    push_bool(&mut out, on);
    out.append(")");
    out
}

pub fn url_bar_js(url: &str) -> (r: String)
    ensures
        r@ == url_bar_script(url@),
{
    let mut out = "if(typeof setUrlBar==='function')setUrlBar('".to_owned();
    append_mapped(&mut out, url, CharMap::Js);
    out.append("')");
    out
}

pub fn history_add_js(url: &str) -> (r: String)
    ensures
        r@ == history_add_script(url@),
{
    let mut out = "if(typeof addToHistory==='function')addToHistory('".to_owned();
    append_mapped(&mut out, url, CharMap::Js);
    out.append("')");
    out
}

pub fn agent_panel_js(text: &str) -> (r: String)
    ensures
        r@ == agent_panel_script(text@),
{
    let mut out = "if(typeof showAgent==='function')showAgent('".to_owned();
    append_mapped(&mut out, text, CharMap::Js);
    out.append("')");
    out
}

pub fn download_js(filename: &str, status: &str) -> (r: String)
    ensures
        r@ == download_script(filename@, status@),
{
    let mut out = "if(typeof showDownload==='function')showDownload('".to_owned();
    append_mapped(&mut out, filename, CharMap::Js);
    out.append("','");
    out.append(status);
    out.append("')");
    out
}

pub fn window_title_text(name: &str) -> (r: String)
    ensures
        r@ == window_title(name@),
{
    let mut out = name.to_owned();
    out.append(" \u{2014} Bauer Browser");
    out
}

/// The JSON array of the given strings.
pub fn json_list(items: &Vec<String>) -> (r: String)
    ensures
        r@ == json_string_list(items@.map_values(|u: String| u@)),
{
    let ghost texts = items@.map_values(|u: String| u@);
    let ghost entries = texts.map_values(|u: Seq<char>| json_string(u));
    let mut out = "[".to_owned();
    let n = items.len();
    let mut i: usize = 0;
    while i < n
        invariant
            n == items@.len(),
            i <= n,
            texts == items@.map_values(|u: String| u@),
            entries == texts.map_values(|u: Seq<char>| json_string(u)),
            out@ == "["@ + joined(entries.take(i as int), ","@),
        decreases n - i,
    {
        proof {
            assert(entries.take(i + 1) =~= entries.take(i as int).push(entries[i as int]));
            lemma_joined_push(entries.take(i as int), ","@, entries[i as int]);
        }
        if i > 0 {
            out.append(",");
        }
        let q = json_quote(items[i].as_str());
        out.append(q.as_str());
        i = i + 1;
    }
    out.append("]");
    assert(entries.take(n as int) =~= entries);
    out
}

pub fn history_list_js(urls: &Vec<String>) -> (r: String)
    ensures
        r@ == history_list_script(urls@.map_values(|u: String| u@)),
{
    let mut out = "if(typeof setHistory==='function')setHistory(".to_owned();
    let list = json_list(urls);
    out.append(list.as_str());
    out.append(")");
    out
}

pub open spec fn tab_views(tabs: Seq<TabMeta>) -> Seq<TabView> {
    tabs.map_values(|t: TabMeta| t@)
}

/// Redraws the tab bar.
pub fn tabs_js(tabs: &Vec<TabMeta>, open_count: usize, active: usize, max_tabs: usize) -> (r: String)
    requires
        open_count <= tabs@.len(),
    ensures
        r@ == tabs_script(tab_views(tabs@), open_count as nat, active as nat, max_tabs as nat),
{
    let ghost entries = tab_views(tabs@).take(open_count as int).map_values(|t: TabView| tab_entry(t));
    let mut out = "if(typeof updateTabs==='function')updateTabs([".to_owned();
    let mut i: usize = 0;
    while i < open_count
        invariant
            open_count <= tabs@.len(),
            i <= open_count,
            entries == tab_views(tabs@).take(open_count as int).map_values(|t: TabView| tab_entry(t)),
            out@ == "if(typeof updateTabs==='function')updateTabs(["@ + joined(entries.take(i as int), ","@),
        decreases open_count - i,
    {
        proof {
            assert(entries.take(i + 1) =~= entries.take(i as int).push(entries[i as int]));
            lemma_joined_push(entries.take(i as int), ","@, entries[i as int]);
            assert(entries[i as int] == tab_entry(tabs@[i as int]@));
        }
        if i > 0 {
            out.append(",");
        }
        out.append("{\"title\":\"");
        append_mapped(&mut out, tabs[i].title.as_str(), CharMap::Js);
        out.append("\",\"url\":\"");
        append_mapped(&mut out, tabs[i].url.as_str(), CharMap::Js);
        out.append("\"}");
        i = i + 1;
    }
    assert(entries.take(open_count as int) =~= entries);
    out.append("],");
    push_decimal(&mut out, active);
    out.append(",");
    push_decimal(&mut out, max_tabs);
    out.append(")");
    out
}

/// The bookmarks page for `list`.
pub fn generate_bookmarks_html(list: &Vec<Bookmark>) -> (r: String)
    ensures
        r@ == bookmarks_page(list@),
{
    let mut out = BOOKMARKS_PAGE_HEAD.to_owned();
    if list.len() == 0 {
        out.append(NO_BOOKMARKS);
    } else {
        out.append("<ul>");
        let ghost start = out@;
        let n = list.len();
        let mut i: usize = 0;
        assert(list@.take(0) =~= Seq::<Bookmark>::empty());
        while i < n
            invariant
                n == list@.len(),
                i <= n,
                out@ == start + bookmark_rows(list@.take(i as int)),
            decreases n - i,
        {
            let b = &list[i];
            proof {
                assert(list@.take(i + 1).drop_last() =~= list@.take(i as int));
            }
            out.append("<li><a href=\"");
            append_mapped(&mut out, b.url.as_str(), CharMap::Html);
            out.append("\">");
            if b.title.as_str().is_empty() {
                append_mapped(&mut out, b.url.as_str(), CharMap::Html);
            } else {
                append_mapped(&mut out, b.title.as_str(), CharMap::Html);
            }
            out.append("</a><span class=\"url\">");
            append_mapped(&mut out, b.url.as_str(), CharMap::Html);
            out.append("</span></li>");
            i = i + 1;
        }
        assert(list@.take(n as int) =~= list@);
        out.append("</ul>");
    }
    out.append(BOOKMARKS_PAGE_TAIL);
    out
}

/// Replaces the current page with `page`.
pub fn write_page_js(page: &str) -> (r: String)
    ensures
        r@ == write_page_script(page@),
{
    let mut out = "document.open();document.write(".to_owned();
    let q = json_quote(page);
    out.append(q.as_str());
    out.append(");document.close();");
    out
}

/// The script injected into every page.
pub fn init_script(domains_js: &str, adblock_js: &str) -> (r: String)
    ensures
        r@ == init_script_text(domains_js@, adblock_js@),
{
    let mut out = "var __BAUER_BLOCKED__=".to_owned();
    out.append(domains_js);
    out.append(";\n");
    out.append(adblock_js);
    out.append("\n");
    out.append(CONTENT_IPC_JS);
    out
}

} // verus!
