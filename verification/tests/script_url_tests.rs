use bauer_browser::bookmarks::Bookmark;
use bauer_browser::scripts::{
    agent_panel_js, bookmark_state_js, download_js, generate_bookmarks_html, history_list_js,
    html_escape, init_script, js_escape, json_list, json_quote, reader_mode_js, tabs_js,
    url_bar_js, window_title_text, write_page_js, BOOKMARKS_PAGE_HEAD, BOOKMARKS_PAGE_TAIL,
    NO_BOOKMARKS,
};
use bauer_browser::tabs::TabMeta;
use bauer_browser::urls::normalize_url;

#[test]
fn js_escaping() {
    assert_eq!(js_escape("a'b\\c\nd\re"), "a\\'b\\\\c de");
    assert_eq!(js_escape(""), "");
}

#[test]
fn html_escaping() {
    assert_eq!(html_escape("<a href=\"x\">&</a>"), "&lt;a href=&quot;x&quot;&gt;&amp;&lt;/a&gt;");
    assert_eq!(html_escape("&amp;"), "&amp;amp;");
}

#[test]
fn json_strings() {
    assert_eq!(json_quote("a\"b\\c\n\t\u{1}\u{1f}é"), "\"a\\\"b\\\\c\\n\\t\\u0001\\u001fé\"");
    assert_eq!(json_quote("\u{8}\u{c}\r/"), "\"\\b\\f\\r/\"");
    assert_eq!(json_list(&vec!["a".to_string(), "b\"".to_string()]), "[\"a\",\"b\\\"\"]");
    assert_eq!(json_list(&Vec::new()), "[]");
}

#[test]
fn json_matches_serde_json() {
    for s in ["plain", "quote\"back\\slash", "ctrl\u{0}\u{7}\u{1b}\u{7f}", "line\nfeed\ttab", "ünï ☆"] {
        assert_eq!(json_quote(s), serde_json::to_string(s).unwrap());
    }
    let v = vec!["x".to_string(), "y\n".to_string()];
    assert_eq!(json_list(&v), serde_json::to_string(&v).unwrap());
}

#[test]
fn toolbar_scripts() {
    assert_eq!(reader_mode_js(true), "if(typeof setReaderMode==='function')setReaderMode(true)");
    assert_eq!(bookmark_state_js(false), "if(typeof setBookmarkState==='function')setBookmarkState(false)");
    assert_eq!(url_bar_js("https://a/'x'"), "if(typeof setUrlBar==='function')setUrlBar('https://a/\\'x\\'')");
    assert_eq!(agent_panel_js("l1\nl2"), "if(typeof showAgent==='function')showAgent('l1 l2')");
    assert_eq!(download_js("f.zip", "done"), "if(typeof showDownload==='function')showDownload('f.zip','done')");
    assert_eq!(history_list_js(&vec!["u".to_string()]), "if(typeof setHistory==='function')setHistory([\"u\"])");
    assert_eq!(window_title_text("Page"), "Page — Bauer Browser");
}

#[test]
fn tab_bar_script() {
    let tabs = vec![
        TabMeta::new("https://a", "normal"),
        TabMeta { title: "It's".to_string(), ..TabMeta::new("https://b", "lite") },
        TabMeta::blank("normal"),
    ];
    assert_eq!(
        tabs_js(&tabs, 2, 1, 12),
        "if(typeof updateTabs==='function')updateTabs([{\"title\":\"New Tab\",\"url\":\"https://a\"},{\"title\":\"It\\'s\",\"url\":\"https://b\"}],1,12)"
    );
    assert_eq!(tabs_js(&tabs, 0, 0, 0), "if(typeof updateTabs==='function')updateTabs([],0,0)");
}

#[test]
fn new_and_blank_tabs() {
    let t = TabMeta::new("https://h", "lite");
    assert_eq!(t, TabMeta { url: "https://h".into(), title: "New Tab".into(), mode: "lite".into(), open: true, reader_mode: false });
    let b = TabMeta::blank("full");
    assert_eq!(b, TabMeta { url: "about:blank".into(), title: "".into(), mode: "full".into(), open: false, reader_mode: false });
}

#[test]
fn bookmarks_page_empty_and_listed() {
    let empty = generate_bookmarks_html(&Vec::new());
    assert_eq!(empty, format!("{}{}{}", BOOKMARKS_PAGE_HEAD, NO_BOOKMARKS, BOOKMARKS_PAGE_TAIL));
    assert!(empty.contains("Nenhum favorito ainda."));
    let list = vec![
        Bookmark { url: "https://a.example/?x=1&y=2".into(), title: "A <b>".into(), timestamp: "t".into() },
        Bookmark { url: "https://b.example".into(), title: "".into(), timestamp: "t".into() },
    ];
    let page = generate_bookmarks_html(&list);
    let rows = "<ul><li><a href=\"https://a.example/?x=1&amp;y=2\">A &lt;b&gt;</a><span class=\"url\">https://a.example/?x=1&amp;y=2</span></li><li><a href=\"https://b.example\">https://b.example</a><span class=\"url\">https://b.example</span></li></ul>";
    assert_eq!(page, format!("{}{}{}", BOOKMARKS_PAGE_HEAD, rows, BOOKMARKS_PAGE_TAIL));
    assert!(BOOKMARKS_PAGE_HEAD.starts_with("<!DOCTYPE html>"));
    assert!(BOOKMARKS_PAGE_HEAD.ends_with("<h1>☆ Favoritos</h1>\n"));
    assert!(BOOKMARKS_PAGE_HEAD.contains("*{box-sizing:border-box;margin:0;padding:0}"));
}

#[test]
fn page_replacement_script() {
    assert_eq!(write_page_js("<p>\"hi\"</p>"), "document.open();document.write(\"<p>\\\"hi\\\"</p>\");document.close();");
}

#[test]
fn page_init_script() {
    assert_eq!(init_script("[\"x\"]", "ADBLOCK();"), "var __BAUER_BLOCKED__=[\"x\"];\nADBLOCK();\n(function(){})();");
}

#[test]
fn address_bar_text() {
    assert_eq!(normalize_url(""), "https://duckduckgo.com");
    assert_eq!(normalize_url("   "), "https://duckduckgo.com");
    assert_eq!(normalize_url("  github.com  "), "https://github.com");
    assert_eq!(normalize_url("http://example.com/a b"), "http://example.com/a b");
    assert_eq!(normalize_url("https://x.y"), "https://x.y");
    assert_eq!(normalize_url("rust lang"), "https://duckduckgo.com/?q=rust+lang");
    assert_eq!(normalize_url("a.b c"), "https://duckduckgo.com/?q=a.b+c");
    assert_eq!(normalize_url("localhost"), "https://duckduckgo.com/?q=localhost");
    assert_eq!(normalize_url("\u{3000}docs.rs\n"), "https://docs.rs");
}
