use bauer_browser::agent::{AgentClient, CONTENT_LIMIT};
use bauer_browser::logger::{init, log_agent_request, log_mode_change, log_navigation};
use bauer_browser::mode::{
    autoplay_script_for_mode, extra_script_for_mode, mode_color, BLOCK_3RD_PARTY_SCRIPTS_JS,
    BLOCK_AUTOPLAY_JS, MODES,
};

#[test]
fn autoplay_blocked_in_lite_and_normal() {
    assert_eq!(autoplay_script_for_mode("lite"), Some(BLOCK_AUTOPLAY_JS));
    assert_eq!(autoplay_script_for_mode("normal"), Some(BLOCK_AUTOPLAY_JS));
    assert_eq!(autoplay_script_for_mode("full"), None);
    assert_eq!(autoplay_script_for_mode("Lite"), None);
}

#[test]
fn third_party_scripts_blocked_only_in_lite() {
    assert_eq!(extra_script_for_mode("lite"), Some(BLOCK_3RD_PARTY_SCRIPTS_JS));
    assert_eq!(extra_script_for_mode("normal"), None);
    assert_eq!(extra_script_for_mode("full"), None);
}

#[test]
fn mode_colours() {
    assert_eq!(mode_color("lite"), "#2ecc71");
    assert_eq!(mode_color("normal"), "#3498db");
    assert_eq!(mode_color("full"), "#e74c3c");
    assert_eq!(mode_color("other"), "#888888");
    assert_eq!(MODES, ["lite", "normal", "full"]);
}

#[test]
fn agent_client_keeps_settings() {
    let c = AgentClient::new("http://localhost:8742".to_string(), 10, true);
    assert_eq!(c.base_url, "http://localhost:8742");
    assert_eq!(c.timeout_secs, 10);
    assert!(c.enabled);
}

#[test]
fn disabled_agent_is_never_asked() {
    let c = AgentClient::new("http://h".to_string(), 5, false);
    assert_eq!(c.health_url(), None);
    assert_eq!(c.summarize_request("u", "text").unwrap_err(), "Agent disabled");
}

#[test]
fn health_and_summary_endpoints() {
    let c = AgentClient::new("http://h:1".to_string(), 7, true);
    assert_eq!(c.health_url(), Some("http://h:1/health".to_string()));
    let r = c.summarize_request("https://p", "page text").unwrap();
    assert_eq!(r.endpoint, "http://h:1/summarize");
    assert_eq!(r.url, "https://p");
    assert_eq!(r.content, "page text");
    assert_eq!(r.mode, "summary");
    assert_eq!(r.timeout_secs, 7);
}

#[test]
fn summary_content_is_cut_at_limit() {
    let c = AgentClient::new("http://h".to_string(), 1, true);
    let long = "x".repeat(9000);
    let r = c.summarize_request("u", &long).unwrap();
    assert_eq!(r.content.len(), CONTENT_LIMIT);
    let exact = "é".repeat(4000);
    let r = c.summarize_request("u", &exact).unwrap();
    assert_eq!(r.content, exact);
}

#[test]
fn summary_content_is_cut_by_characters() {
    let c = AgentClient::new("http://localhost:8742".to_string(), 10, true);
    let page = "a".to_string() + &"é".repeat(5000);
    let r = c.summarize_request("https://example.com", &page).unwrap();
    assert_eq!(r.content, page);
    let long = "é".repeat(9000);
    let r = c.summarize_request("u", &long).unwrap();
    assert_eq!(r.content.chars().count(), CONTENT_LIMIT);
    assert_eq!(r.content, "é".repeat(CONTENT_LIMIT));
    let disabled = AgentClient::new("http://h".to_string(), 1, false);
    assert_eq!(disabled.summarize_request("u", &long).unwrap_err(), "Agent disabled");
}

#[test]
fn agent_panel_messages() {
    let c = AgentClient::new("http://localhost:8742".to_string(), 1, true);
    assert_eq!(c.result_message(None), "Bauer Agent não disponível.\nInicie em: http://localhost:8742");
    assert_eq!(c.result_message(Some(Ok("Resumo".to_string()))), "Resumo");
    assert_eq!(c.result_message(Some(Err("timeout".to_string()))), "Erro: timeout");
    assert_eq!(AgentClient::summary_from_reply(None), "(sem resposta)");
    assert_eq!(AgentClient::summary_from_reply(Some("S".to_string())), "S");
}

#[test]
fn disabled_logging_writes_nothing() {
    let l = init(false);
    assert_eq!(log_mode_change(&l, "normal", "lite"), None);
    assert_eq!(log_agent_request(&l, "https://e"), None);
    assert_eq!(log_navigation(&l, "https://e", "lite", "ram=0.0MB"), None);
}

#[test]
fn log_line_layout() {
    let l = init(true);
    let parts = vec!["MODE".to_string(), "normal->lite".to_string()];
    assert_eq!(l.line_at("2026-06-03T14:22:15", &parts), Some("2026-06-03T14:22:15 | MODE | normal->lite\n".to_string()));
    let line = log_mode_change(&l, "normal", "lite").unwrap();
    assert!(line.ends_with(" | MODE | normal->lite\n"));
    assert_eq!(line.len(), 19 + " | MODE | normal->lite\n".len());
    let line = log_agent_request(&l, "https://example.com").unwrap();
    assert!(line.ends_with(" | AGENT_REQ | url=https://example.com\n"));
    let line = log_navigation(&l, "https://example.com", "normal", "ram=87.0MB").unwrap();
    assert!(line.ends_with(" | NAV | mode=normal | url=https://example.com | ram=87.0MB\n"));
}
