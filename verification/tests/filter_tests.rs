use bauer_browser::filter::BlockList;

#[test]
fn load_trims_lowercases_and_skips_comments() {
    let bl = BlockList::load(" Tracker.COM \n# a comment\n\n   \nads.example\r\n");
    assert_eq!(bl.domains_as_js_array(), "[\"ads.example\",\"tracker.com\"]");
}

#[test]
fn load_keeps_each_domain_once() {
    let bl = BlockList::load("x.com\nX.COM\n x.com\n");
    assert_eq!(bl.domains_as_js_array(), "[\"x.com\"]");
}

#[test]
fn empty_list_is_empty_array() {
    let bl = BlockList::load("");
    assert_eq!(bl.domains_as_js_array(), "[]");
    assert!(!bl.is_blocked("https://anything.example"));
}

#[test]
fn js_array_is_sorted() {
    let bl = BlockList::load("zeta.net\nalpha.org\nmid.com\n");
    assert_eq!(bl.domains_as_js_array(), "[\"alpha.org\",\"mid.com\",\"zeta.net\"]");
}

#[test]
fn js_array_escapes_quotes() {
    let bl = BlockList::load("a\"b\n");
    assert_eq!(bl.domains_as_js_array(), "[\"a\\\"b\"]");
}

#[test]
fn listed_domain_blocks_case_insensitively() {
    let bl = BlockList::load("doubleclick.net\n");
    assert!(bl.is_blocked("https://ad.DoubleClick.NET/x?y=1"));
    assert!(!bl.is_blocked("https://example.org/"));
}

#[test]
fn comment_lines_block_nothing() {
    let bl = BlockList::load("#doubleclick.net\n");
    assert!(!bl.is_blocked("https://doubleclick.net/"));
}

#[test]
fn blocking_switch() {
    let bl = BlockList::load("tracker.com\n");
    assert!(!bl.allows(true, "https://tracker.com/p"));
    assert!(bl.allows(false, "https://tracker.com/p"));
    assert!(bl.allows(true, "https://good.example/"));
}

#[test]
fn uppercase_non_ascii_domain_is_lowercased() {
    let bl = BlockList::load("ÄRGER.DE\n");
    assert_eq!(bl.domains_as_js_array(), "[\"ärger.de\"]");
    assert!(bl.is_blocked("https://Ärger.de/"));
}

#[test]
fn blocking_ignores_ascii_case() {
    let bl = BlockList::load("tracker.com\n");
    let url = "https://Ads.Tracker.Com/path";
    assert!(bl.is_blocked(url));
    assert_eq!(bl.is_blocked(url), bl.is_blocked(&url.to_ascii_uppercase()));
    assert_eq!(bl.is_blocked(url), bl.is_blocked(&url.to_ascii_lowercase()));
    let other = "https://Example.ORG/";
    assert!(!bl.is_blocked(other));
    assert!(!bl.is_blocked(&other.to_ascii_uppercase()));
}
