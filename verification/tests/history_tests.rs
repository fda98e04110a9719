use bauer_browser::history::{entry_at, entry_for, load_entries, load_urls, should_record, HistoryEntry, MAX_ENTRIES};

fn visit(url: &str, title: &str, ts: &str) -> HistoryEntry {
    HistoryEntry { url: url.to_string(), title: title.to_string(), timestamp: ts.to_string() }
}

#[test]
fn blank_and_about_pages_are_not_recorded() {
    assert!(!should_record(""));
    assert!(!should_record("about:blank"));
    assert!(should_record("https://example.com"));
    assert!(should_record("abc"));
    assert!(entry_at("about:blank", "x", "t".to_string()).is_none());
    assert!(entry_for("", "x").is_none());
}

#[test]
fn entry_keeps_fields() {
    let e = entry_at("https://a.example", "A", "2026-06-03T14:22:01".to_string()).unwrap();
    assert_eq!(e, visit("https://a.example", "A", "2026-06-03T14:22:01"));
}

#[test]
fn entry_for_is_stamped_now() {
    let e = entry_for("https://a.example", "A").unwrap();
    assert_eq!(e.url, "https://a.example");
    assert_eq!(e.title, "A");
    assert_eq!(e.timestamp.len(), 19);
    let shape = "dddd-dd-ddTdd:dd:dd";
    for (c, want) in e.timestamp.chars().zip(shape.chars()) {
        if want == 'd' {
            assert!(c.is_ascii_digit());
        } else {
            assert_eq!(c, want);
        }
    }
}

#[test]
fn urls_newest_first_each_once() {
    let stored = vec![
        visit("a", "", "1"),
        visit("b", "", "2"),
        visit("a", "", "3"),
        visit("c", "", "4"),
    ];
    assert_eq!(load_urls(stored), vec!["c".to_string(), "a".to_string(), "b".to_string()]);
}

#[test]
fn urls_are_capped() {
    let stored: Vec<HistoryEntry> = (0..600).map(|i| visit(&format!("u{i}"), "", "t")).collect();
    let urls = load_urls(stored);
    assert_eq!(urls.len(), MAX_ENTRIES);
    assert_eq!(urls[0], "u599");
    assert_eq!(urls[499], "u100");
}

#[test]
fn no_history_no_urls() {
    assert!(load_urls(Vec::new()).is_empty());
}

#[test]
fn entries_keep_newest_visit_per_url() {
    let stored = vec![visit("a", "old", "1"), visit("b", "B", "2"), visit("a", "new", "3")];
    let out = load_entries(stored, 10);
    assert_eq!(out, vec![visit("a", "new", "3"), visit("b", "B", "2")]);
}

#[test]
fn entries_stop_at_cap() {
    let stored = vec![visit("a", "", "1"), visit("b", "", "2"), visit("c", "", "3")];
    let out = load_entries(stored, 2);
    assert_eq!(out, vec![visit("c", "", "3"), visit("b", "", "2")]);
}

#[test]
fn cap_zero_gives_nothing() {
    let stored = vec![visit("a", "", "1"), visit("b", "", "2")];
    assert!(load_entries(stored, 0).is_empty());
    assert!(load_entries(Vec::new(), 0).is_empty());
}
