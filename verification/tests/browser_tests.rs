use bauer_browser::bookmarks::Bookmark;
use bauer_browser::browser::{Action, Browser, Command, Event};
use bauer_browser::config::Config;
use bauer_browser::mode::{BLOCK_3RD_PARTY_SCRIPTS_JS, BLOCK_AUTOPLAY_JS, READER_MODE_JS};
use bauer_browser::scripts::EXTRACT_CONTENT_JS;

fn toolbar(s: &str) -> Action {
    Action::ToolbarScript(s.to_string())
}

fn browser() -> Browser {
    let cfg = Config { home_url: "https://home".to_string(), ..Config::defaults() };
    Browser::new(&cfg, Vec::new(), 1280, 800)
}

fn tabs_script(entries: &[(&str, &str)], active: usize, max: usize) -> String {
    let inner: Vec<String> = entries
        .iter()
        .map(|(t, u)| format!("{{\"title\":\"{}\",\"url\":\"{}\"}}", t, u))
        .collect();
    format!("if(typeof updateTabs==='function')updateTabs([{}],{},{})", inner.join(","), active, max)
}

/// Opens tabs until `n` are open and names them by address.
fn with_tabs(n: usize) -> Browser {
    let mut b = browser();
    for i in 0..n {
        if i > 0 {
            b.handle_command(Command::NewTab);
        }
        b.handle_event(Event::TabUrlChanged { tab: i, url: format!("https://t{i}") });
    }
    b
}

#[test]
fn startup_state_and_actions() {
    let b = browser();
    assert_eq!(b.tab_url(0), Some("https://home"));
    assert_eq!(b.tab_url(4), Some("about:blank"));
    assert_eq!(b.tab_url(5), None);
    assert_eq!(b.active(), 0);
    let acts = b.startup(&vec!["https://h1".to_string()]);
    assert_eq!(
        acts,
        vec![
            toolbar(&tabs_script(&[("New Tab", "https://home")], 0, 5)),
            toolbar("if(typeof setHistory==='function')setHistory([\"https://h1\"])"),
            toolbar("if(typeof setBookmarkState==='function')setBookmarkState(false)"),
        ]
    );
}

#[test]
fn tab_limit_comes_from_settings_but_never_exceeds_slots() {
    let cfg = Config { max_tabs: 9, ..Config::defaults() };
    let b = Browser::new(&cfg, Vec::new(), 10, 10);
    assert!(b.startup(&Vec::new())[0] == toolbar(&tabs_script(&[("New Tab", "https://duckduckgo.com")], 0, 5)));
}

#[test]
fn navigate_normalizes_and_loads() {
    let mut b = browser();
    let acts = b.handle_command(Command::Navigate { url: " github.com ".to_string() });
    assert_eq!(
        acts,
        vec![
            toolbar("if(typeof setReaderMode==='function')setReaderMode(false)"),
            Action::LoadUrl { tab: 0, url: "https://github.com".to_string() },
        ]
    );
    assert_eq!(b.tab_url(0), Some("https://github.com"));
}

#[test]
fn home_back_forward_reload() {
    let mut b = browser();
    assert_eq!(b.handle_command(Command::Home)[1], Action::LoadUrl { tab: 0, url: "https://home".to_string() });
    assert_eq!(b.handle_command(Command::Back)[1], Action::PageScript { tab: 0, script: "history.back()".to_string() });
    assert_eq!(b.handle_command(Command::Forward)[1], Action::PageScript { tab: 0, script: "history.forward()".to_string() });
    assert_eq!(b.handle_command(Command::Reload), vec![Action::PageScript { tab: 0, script: "location.reload()".to_string() }]);
}

#[test]
fn set_mode_logs_and_injects() {
    let mut b = browser();
    let acts = b.handle_command(Command::SetMode { mode: "lite".to_string() });
    assert_eq!(
        acts,
        vec![
            Action::LogModeChange { old: "normal".to_string(), new: "lite".to_string() },
            Action::PageScript { tab: 0, script: BLOCK_AUTOPLAY_JS.to_string() },
            Action::PageScript { tab: 0, script: BLOCK_3RD_PARTY_SCRIPTS_JS.to_string() },
        ]
    );
    let acts = b.handle_command(Command::SetMode { mode: "full".to_string() });
    assert_eq!(acts, vec![Action::LogModeChange { old: "lite".to_string(), new: "full".to_string() }]);
}

#[test]
fn reader_mode_toggles() {
    let mut b = browser();
    assert_eq!(
        b.handle_command(Command::ReaderMode),
        vec![
            Action::PageScript { tab: 0, script: READER_MODE_JS.to_string() },
            toolbar("if(typeof setReaderMode==='function')setReaderMode(true)"),
        ]
    );
    assert_eq!(
        b.handle_command(Command::ReaderMode),
        vec![
            Action::PageScript { tab: 0, script: "location.reload()".to_string() },
            toolbar("if(typeof setReaderMode==='function')setReaderMode(false)"),
        ]
    );
}

#[test]
fn summary_request_asks_the_page() {
    let mut b = browser();
    assert_eq!(
        b.handle_command(Command::AgentSummarize),
        vec![
            Action::LogAgentRequest { url: "https://home".to_string() },
            Action::PageScript { tab: 0, script: EXTRACT_CONTENT_JS.to_string() },
        ]
    );
    assert_eq!(
        b.handle_event(Event::PageContent { tab: 0, url: "u".to_string(), content: "c".to_string() }),
        vec![Action::Summarize { url: "u".to_string(), content: "c".to_string() }]
    );
    assert!(b.handle_event(Event::PageContent { tab: 1, url: "u".to_string(), content: "c".to_string() }).is_empty());
    assert_eq!(
        b.handle_event(Event::AgentResult { text: "It's done".to_string() }),
        vec![toolbar("if(typeof showAgent==='function')showAgent('It\\'s done')")]
    );
}

#[test]
fn save_and_remove_bookmark() {
    let mut b = browser();
    b.handle_event(Event::TabTitleChanged { tab: 0, title: "Home".to_string() });
    let acts = b.handle_command(Command::SaveBookmark);
    assert_eq!(acts, vec![Action::SaveBookmarks, toolbar("if(typeof setBookmarkState==='function')setBookmarkState(true)")]);
    assert_eq!(b.bookmarks().len(), 1);
    assert_eq!(b.bookmarks()[0].url, "https://home");
    assert_eq!(b.bookmarks()[0].title, "Home");
    let acts = b.handle_command(Command::SaveBookmark);
    assert_eq!(acts, vec![toolbar("if(typeof setBookmarkState==='function')setBookmarkState(true)")]);
    let acts = b.handle_command(Command::RemoveBookmark { url: "https://home".to_string() });
    assert_eq!(acts, vec![Action::SaveBookmarks, toolbar("if(typeof setBookmarkState==='function')setBookmarkState(false)")]);
    assert!(b.bookmarks().is_empty());
    assert!(b.handle_command(Command::RemoveBookmark { url: "https://other".to_string() }).is_empty());
}

#[test]
fn blank_page_is_not_bookmarked() {
    let mut b = browser();
    b.handle_event(Event::TabUrlChanged { tab: 0, url: "about:blank".to_string() });
    let acts = b.handle_command(Command::SaveBookmark);
    assert_eq!(acts, vec![toolbar("if(typeof setBookmarkState==='function')setBookmarkState(true)")]);
    assert!(b.bookmarks().is_empty());
}

#[test]
fn show_bookmarks_writes_page() {
    let cfg = Config::defaults();
    let bms = vec![Bookmark { url: "https://a".into(), title: "A".into(), timestamp: "t".into() }];
    let mut b = Browser::new(&cfg, bms.clone(), 1, 1);
    let acts = b.handle_command(Command::ShowBookmarks);
    let page = bauer_browser::scripts::generate_bookmarks_html(&bms);
    let expected = format!("document.open();document.write({});document.close();", serde_json::to_string(&page).unwrap());
    assert_eq!(acts, vec![Action::PageScript { tab: 0, script: expected }, toolbar("if(typeof setReaderMode==='function')setReaderMode(false)")]);
}

#[test]
fn new_tab_is_shown() {
    let mut b = browser();
    let acts = b.handle_command(Command::NewTab);
    assert_eq!(
        acts,
        vec![
            Action::LoadUrl { tab: 1, url: "https://home".to_string() },
            Action::LayoutTabs { active: 1, width: 1280, height: 800 },
            toolbar(&tabs_script(&[("New Tab", "https://home"), ("New Tab", "https://home")], 1, 5)),
            Action::WindowTitle("New Tab — Bauer Browser".to_string()),
        ]
    );
    assert_eq!(b.active(), 1);
}

#[test]
fn tab_limit_stops_new_tabs() {
    let mut b = with_tabs(5);
    assert!(b.handle_command(Command::NewTab).is_empty());
    let cfg = Config { max_tabs: 0, ..Config::defaults() };
    let mut b = Browser::new(&cfg, Vec::new(), 1, 1);
    assert!(b.handle_command(Command::NewTab).is_empty());
}

#[test]
fn next_and_prev_cycle() {
    let mut b = with_tabs(3);
    assert_eq!(b.active(), 2);
    let acts = b.handle_command(Command::NextTab);
    assert_eq!(b.active(), 0);
    assert_eq!(
        acts,
        vec![
            Action::LayoutTabs { active: 0, width: 1280, height: 800 },
            toolbar(&tabs_script(&[("New Tab", "https://t0"), ("New Tab", "https://t1"), ("New Tab", "https://t2")], 0, 5)),
            toolbar("if(typeof setUrlBar==='function')setUrlBar('https://t0')"),
            toolbar("if(typeof setBookmarkState==='function')setBookmarkState(false)"),
            toolbar("if(typeof setReaderMode==='function')setReaderMode(false)"),
            Action::WindowTitle("New Tab — Bauer Browser".to_string()),
        ]
    );
    b.handle_command(Command::PrevTab);
    assert_eq!(b.active(), 2);
    b.handle_command(Command::PrevTab);
    assert_eq!(b.active(), 1);
    let mut single = browser();
    assert!(single.handle_command(Command::NextTab).is_empty());
    assert!(single.handle_command(Command::PrevTab).is_empty());
}

#[test]
fn switching_restores_each_tabs_mode() {
    let mut b = with_tabs(2);
    b.handle_command(Command::SetMode { mode: "lite".to_string() });
    b.handle_command(Command::SwitchTab { index: 0 });
    let acts = b.handle_command(Command::SetMode { mode: "full".to_string() });
    assert_eq!(acts[0], Action::LogModeChange { old: "normal".to_string(), new: "full".to_string() });
    b.handle_command(Command::SwitchTab { index: 1 });
    let acts = b.handle_command(Command::SetMode { mode: "normal".to_string() });
    assert_eq!(acts[0], Action::LogModeChange { old: "lite".to_string(), new: "normal".to_string() });
    assert!(b.handle_command(Command::SwitchTab { index: 2 }).is_empty());
}

#[test]
fn switch_tab_actions() {
    let mut b = with_tabs(2);
    b.handle_event(Event::TabTitleChanged { tab: 0, title: "Zero".to_string() });
    let acts = b.handle_command(Command::SwitchTab { index: 0 });
    assert_eq!(
        acts,
        vec![
            Action::LayoutTabs { active: 0, width: 1280, height: 800 },
            toolbar(&tabs_script(&[("Zero", "https://t0"), ("New Tab", "https://t1")], 0, 5)),
            toolbar("if(typeof setUrlBar==='function')setUrlBar('https://t0')"),
            Action::WindowTitle("Zero — Bauer Browser".to_string()),
            toolbar("if(typeof setBookmarkState==='function')setBookmarkState(false)"),
            toolbar("if(typeof setReaderMode==='function')setReaderMode(false)"),
        ]
    );
}

#[test]
fn closing_last_tab_goes_home() {
    let mut b = browser();
    b.handle_event(Event::TabUrlChanged { tab: 0, url: "https://elsewhere".to_string() });
    let acts = b.handle_command(Command::CloseTab { index: 0 });
    assert_eq!(
        acts,
        vec![
            Action::LoadUrl { tab: 0, url: "https://home".to_string() },
            toolbar(&tabs_script(&[("New Tab", "https://home")], 0, 5)),
        ]
    );
    assert_eq!(b.tab_url(0), Some("https://home"));
    assert!(!acts.contains(&Action::Exit));
}

#[test]
fn closing_shown_tab_shows_next() {
    let mut b = with_tabs(3);
    b.handle_command(Command::SwitchTab { index: 1 });
    let acts = b.handle_command(Command::CloseTab { index: 1 });
    assert_eq!(b.active(), 1);
    assert_eq!(b.tab_url(1), Some("https://t2"));
    assert_eq!(b.tab_url(2), Some("about:blank"));
    assert_eq!(
        acts,
        vec![
            Action::LoadUrl { tab: 1, url: "https://t2".to_string() },
            Action::LoadUrl { tab: 2, url: "about:blank".to_string() },
            Action::LayoutTabs { active: 1, width: 1280, height: 800 },
            toolbar(&tabs_script(&[("New Tab", "https://t0"), ("New Tab", "https://t2")], 1, 5)),
            toolbar("if(typeof setUrlBar==='function')setUrlBar('https://t2')"),
            Action::WindowTitle("New Tab — Bauer Browser".to_string()),
        ]
    );
}

#[test]
fn closing_last_open_tab_shows_previous() {
    let mut b = with_tabs(3);
    b.handle_command(Command::CloseTab { index: usize::MAX });
    assert_eq!(b.active(), 1);
    assert_eq!(b.tab_url(1), Some("https://t1"));
}

#[test]
fn closing_tab_before_shown_keeps_it() {
    let mut b = with_tabs(3);
    b.handle_command(Command::CloseTab { index: 0 });
    assert_eq!(b.active(), 1);
    assert_eq!(b.tab_url(1), Some("https://t2"));
}

#[test]
fn closing_tab_after_shown_selects_its_slot() {
    let mut b = with_tabs(3);
    b.handle_command(Command::SwitchTab { index: 0 });
    b.handle_command(Command::CloseTab { index: 2 });
    assert_eq!(b.active(), 1);
    assert_eq!(b.tab_url(1), Some("https://t1"));
}

#[test]
fn closing_unknown_index_does_nothing() {
    let mut b = with_tabs(2);
    assert!(b.handle_command(Command::CloseTab { index: 4 }).is_empty());
    assert_eq!(b.active(), 1);
}

#[test]
fn navigation_in_shown_tab() {
    let mut b = browser();
    let acts = b.handle_event(Event::TabUrlChanged { tab: 0, url: "https://x/'".to_string() });
    assert_eq!(
        acts,
        vec![
            Action::LogNavigation { url: "https://x/'".to_string(), mode: "normal".to_string() },
            Action::RecordVisit { url: "https://x/'".to_string(), title: "New Tab".to_string() },
            toolbar("if(typeof addToHistory==='function')addToHistory('https://x/\\'')"),
            toolbar("if(typeof setBookmarkState==='function')setBookmarkState(false)"),
            Action::WindowTitle("https://x/' — Bauer Browser".to_string()),
            toolbar("if(typeof setUrlBar==='function')setUrlBar('https://x/\\'')"),
            toolbar(&tabs_script(&[("New Tab", "https://x/\\'")], 0, 5)),
        ]
    );
}

#[test]
fn navigation_in_background_tab() {
    let mut b = with_tabs(2);
    assert!(b.handle_event(Event::TabUrlChanged { tab: 0, url: "https://bg".to_string() }).is_empty());
    assert_eq!(b.tab_url(0), Some("https://bg"));
    assert!(b.handle_event(Event::TabUrlChanged { tab: 9, url: "https://none".to_string() }).is_empty());
}

#[test]
fn title_changes() {
    let mut b = browser();
    let acts = b.handle_event(Event::TabTitleChanged { tab: 0, title: "Hello".to_string() });
    assert_eq!(
        acts,
        vec![
            Action::WindowTitle("Hello — Bauer Browser".to_string()),
            toolbar(&tabs_script(&[("Hello", "https://home")], 0, 5)),
        ]
    );
    assert!(b.handle_event(Event::TabTitleChanged { tab: 0, title: "".to_string() }).is_empty());
    assert!(b.handle_event(Event::TabTitleChanged { tab: 3, title: "Bg".to_string() }).is_empty());
}

#[test]
fn window_events() {
    let mut b = browser();
    assert_eq!(
        b.handle_event(Event::Resized { width: 640, height: 480 }),
        vec![Action::ToolbarBounds { width: 640 }, Action::LayoutTabs { active: 0, width: 640, height: 480 }]
    );
    assert_eq!(b.handle_command(Command::NewTab)[1], Action::LayoutTabs { active: 1, width: 640, height: 480 });
    assert_eq!(
        b.handle_event(Event::DownloadStarted { filename: "a.zip".to_string() }),
        vec![toolbar("if(typeof showDownload==='function')showDownload('a.zip','started')")]
    );
    assert_eq!(
        b.handle_event(Event::DownloadFinished { filename: "a.zip".to_string(), success: false }),
        vec![toolbar("if(typeof showDownload==='function')showDownload('a.zip','error')")]
    );
    assert_eq!(
        b.handle_event(Event::DownloadFinished { filename: "a.zip".to_string(), success: true }),
        vec![toolbar("if(typeof showDownload==='function')showDownload('a.zip','done')")]
    );
    assert_eq!(b.handle_event(Event::CloseRequested), vec![Action::Exit]);
}
