use bauer_browser::config::{Config, SettingsOverrides};
use bauer_browser::layout::{chrome_rect, content_rect, hidden_rect, tab_rect, Bounds, CHROME_H};
use bauer_browser::resource::{process_tree_bytes, ProcessSample};

#[test]
fn page_area_below_toolbar() {
    assert_eq!(content_rect(1280, 800), Bounds { x: 0, y: 92, width: 1280, height: 708 });
    assert_eq!(content_rect(300, 50), Bounds { x: 0, y: 92, width: 300, height: 0 });
    assert_eq!(chrome_rect(1280), Bounds { x: 0, y: 0, width: 1280, height: CHROME_H });
    assert_eq!(hidden_rect(), Bounds { x: -9999, y: -9999, width: 1, height: 1 });
}

#[test]
fn only_active_tab_is_shown() {
    assert_eq!(tab_rect(2, 2, 100, 200), content_rect(100, 200));
    assert_eq!(tab_rect(1, 2, 100, 200), hidden_rect());
}

#[test]
fn memory_of_own_process_tree() {
    let procs = vec![
        ProcessSample { pid: 10, parent: Some(1), memory: 100 },
        ProcessSample { pid: 11, parent: Some(10), memory: 50 },
        ProcessSample { pid: 12, parent: Some(11), memory: 7 },
        ProcessSample { pid: 13, parent: None, memory: 1000 },
    ];
    assert_eq!(process_tree_bytes(10, &procs), Some(150));
    assert_eq!(process_tree_bytes(99, &procs), Some(0));
}

#[test]
fn memory_overflow_is_reported() {
    let procs = vec![
        ProcessSample { pid: 1, parent: None, memory: u64::MAX },
        ProcessSample { pid: 2, parent: Some(1), memory: 1 },
    ];
    assert_eq!(process_tree_bytes(1, &procs), None);
}

#[test]
fn default_settings() {
    let c = Config::defaults();
    assert_eq!(c.max_tabs, 5);
    assert_eq!(c.default_mode, "normal");
    assert_eq!(c.home_url, "https://duckduckgo.com");
    assert!(c.block_trackers && c.block_ads && c.agent_enabled && c.log_enabled);
    assert_eq!(c.agent_base_url, "http://localhost:8742");
    assert_eq!(c.agent_timeout, 10);
}

#[test]
fn settings_file_overrides_defaults() {
    let text = "[browser]\nmax_tabs = 3\ndefault_mode = \"lite\"\nhome_url = \"https://example.org\"\nram_alert_mb = 300\n\n[blocklists]\nblock_trackers = false\n\n[agent]\nenabled = false\nbase_url = \"http://agent:1\"\ntimeout_seconds = 4\n\n[logging]\nenabled = false\n";
    let c = Config::from_settings_text(text).unwrap();
    assert_eq!(c.max_tabs, 3);
    assert_eq!(c.default_mode, "lite");
    assert_eq!(c.home_url, "https://example.org");
    assert!(!c.block_trackers);
    assert!(c.block_ads);
    assert!(!c.agent_enabled);
    assert_eq!(c.agent_base_url, "http://agent:1");
    assert_eq!(c.agent_timeout, 4);
    assert!(!c.log_enabled);
}

#[test]
fn wrong_types_keep_defaults() {
    let c = Config::from_settings_text("[browser]\nmax_tabs = \"many\"\nhome_url = 3\n").unwrap();
    assert_eq!(c.max_tabs, 5);
    assert_eq!(c.home_url, "https://duckduckgo.com");
}

#[test]
fn negative_numbers_wrap() {
    let c = Config::from_settings_text("[agent]\ntimeout_seconds = -1\n").unwrap();
    assert_eq!(c.agent_timeout, u64::MAX);
}

#[test]
fn invalid_settings_are_rejected() {
    assert!(Config::from_settings_text("[browser\nmax_tabs = ").is_none());
    assert!(Config::from_settings_text("").is_some());
}

#[test]
fn overrides_apply_field_by_field() {
    let o = SettingsOverrides {
        max_tabs: Some(2),
        default_mode: None,
        home_url: None,
        block_trackers: None,
        block_ads: Some(false),
        agent_enabled: None,
        agent_base_url: None,
        agent_timeout: None,
        log_enabled: None,
    };
    let c = Config::with_overrides(o);
    let d = Config::defaults();
    assert_eq!(c, Config { max_tabs: 2, block_ads: false, ..d });
}

#[test]
fn default_trait_matches_defaults() {
    assert_eq!(Config::default(), Config::defaults());
}

#[test]
fn agent_section_alone_keeps_other_defaults() {
    let text = "[agent]\nenabled = false\nbase_url = \"http://127.0.0.1:9000\"\ntimeout_seconds = 3\n";
    let c = Config::from_settings_text(text).unwrap();
    assert!(!c.agent_enabled);
    assert_eq!(c.agent_base_url, "http://127.0.0.1:9000");
    assert_eq!(c.agent_timeout, 3);
    assert!(c.log_enabled);
    assert_eq!(c.max_tabs, 5);
    assert_eq!(c.default_mode, "normal");
    assert!(c.block_trackers && c.block_ads);
}

#[test]
fn wrongly_typed_entry_keeps_default_while_others_apply() {
    let c = Config::from_settings_text("[browser]\nmax_tabs = \"seven\"\nhome_url = \"https://example.org\"\n").unwrap();
    assert_eq!(c.max_tabs, 5);
    assert_eq!(c.home_url, "https://example.org");
}

#[test]
fn entries_are_read_from_their_own_keys() {
    let text = "[browser]\ndefault_mode = \"full\"\nhome_url = \"https://h\"\n[logging]\nenabled = false\n";
    let c = Config::from_settings_text(text).unwrap();
    assert_eq!(c.default_mode, "full");
    assert_eq!(c.home_url, "https://h");
    assert!(c.agent_enabled);
    assert!(!c.log_enabled);
}
