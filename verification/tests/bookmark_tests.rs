use bauer_browser::bookmarks::{add, add_at, is_bookmarked, remove, Bookmark};

fn bm(url: &str, title: &str, ts: &str) -> Bookmark {
    Bookmark { url: url.to_string(), title: title.to_string(), timestamp: ts.to_string() }
}

#[test]
fn add_puts_new_bookmark_in_front() {
    let mut list = vec![bm("https://old.example", "Old", "t0")];
    assert!(add_at("https://new.example", "New", "t1".to_string(), &mut list));
    assert_eq!(list, vec![bm("https://new.example", "New", "t1"), bm("https://old.example", "Old", "t0")]);
}

#[test]
fn empty_title_falls_back_to_url() {
    let mut list = Vec::new();
    assert!(add_at("https://x.example", "", "t".to_string(), &mut list));
    assert_eq!(list[0].title, "https://x.example");
}

#[test]
fn pages_that_cannot_be_bookmarked() {
    let mut list = Vec::new();
    assert!(!add_at("", "t", "t".to_string(), &mut list));
    assert!(!add_at("about:blank", "t", "t".to_string(), &mut list));
    assert!(list.is_empty());
}

#[test]
fn adding_twice_keeps_one() {
    let mut list = Vec::new();
    assert!(add("https://x.example", "X", &mut list));
    let first = list.clone();
    assert!(!add("https://x.example", "Other", &mut list));
    assert_eq!(list, first);
    assert_eq!(list.len(), 1);
    assert!(!list[0].timestamp.is_empty());
}

#[test]
fn remove_drops_every_match() {
    let mut list = vec![bm("a", "1", "t"), bm("b", "2", "t"), bm("a", "3", "t")];
    assert!(remove("a", &mut list));
    assert_eq!(list, vec![bm("b", "2", "t")]);
    assert!(!remove("a", &mut list));
    assert_eq!(list, vec![bm("b", "2", "t")]);
}

#[test]
fn remove_undoes_add() {
    let mut list = vec![bm("b", "2", "t")];
    let before = list.clone();
    assert!(add("https://n.example", "N", &mut list));
    assert!(remove("https://n.example", &mut list));
    assert_eq!(list, before);
}

#[test]
fn star_state() {
    let list = vec![bm("a", "1", "t")];
    assert!(is_bookmarked(&list, "a"));
    assert!(!is_bookmarked(&list, "b"));
}

#[test]
fn added_bookmark_is_stamped_now() {
    let mut list = Vec::new();
    assert!(add("https://n.example", "N", &mut list));
    let ts = &list[0].timestamp;
    assert_eq!(ts.len(), 19);
    assert_eq!(&ts[4..5], "-");
    assert_eq!(&ts[7..8], "-");
    assert_eq!(&ts[10..11], "T");
    assert_eq!(&ts[13..14], ":");
    assert_eq!(&ts[16..17], ":");
    assert!(ts[..4].chars().all(|c| c.is_ascii_digit()));
}
