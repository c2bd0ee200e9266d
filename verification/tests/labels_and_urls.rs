use elevo_messenger::domain::{is_domain_allowed, is_host_allowed, page_title, title_from_url};
use elevo_messenger::commands::parse_web_url;
use elevo_messenger::labels::{
    bridge_explorer_label, side_panel_content_label, side_panel_titlebar_label, task_board_label,
};

#[test]
fn explorer_label_replaces_unsafe_characters() {
    assert_eq!(bridge_explorer_label("ws 1/é"), "bridge-explorer-ws_1__");
    assert_eq!(bridge_explorer_label("abc-DEF_9"), "bridge-explorer-abc-DEF_9");
    assert_eq!(bridge_explorer_label(""), "bridge-explorer-");
}

#[test]
fn task_board_label_replaces_unsafe_characters() {
    assert_eq!(task_board_label("!team:elevo.vip"), "task-board-_team_elevo_vip");
    assert_eq!(task_board_label("Z9"), "task-board-Z9");
}

#[test]
fn same_safe_id_gives_same_window() {
    assert_eq!(bridge_explorer_label("a b"), bridge_explorer_label("a_b"));
    assert_ne!(bridge_explorer_label("a"), task_board_label("a"));
}

#[test]
fn side_panel_child_labels() {
    assert_eq!(side_panel_titlebar_label("panel-1"), "panel-1--titlebar");
    assert_eq!(side_panel_content_label("panel-1"), "panel-1--content");
}

#[test]
fn allowed_domains_and_subdomains() {
    assert!(is_domain_allowed("https://elevo.vip/chat"));
    assert!(is_domain_allowed("https://docs.elevo.vip/a?b=c"));
    assert!(is_domain_allowed("http://localhost:8080/"));
    assert!(is_domain_allowed("https://x.y.easyops.local"));
    assert!(is_domain_allowed("https://ELEVO.VIP/"));
}

#[test]
fn other_domains_refused() {
    assert!(!is_domain_allowed("https://evil.com"));
    assert!(!is_domain_allowed("https://elevo.vip.evil.com/"));
    assert!(!is_domain_allowed("https://notelevo.vip/"));
    assert!(!is_domain_allowed("not a url"));
    assert!(!is_domain_allowed("mailto:someone@elevo.vip"));
    assert!(!is_domain_allowed(""));
}

#[test]
fn host_check_on_its_own() {
    assert!(is_host_allowed("elevo.vip"));
    assert!(is_host_allowed("a.localhost"));
    assert!(!is_host_allowed("localhost.evil"));
    assert!(!is_host_allowed("xlocalhost"));
}

#[test]
fn title_is_host_for_plain_https() {
    assert_eq!(page_title("https://elevo.vip/path?q=1", "fallback"), "elevo.vip");
    assert_eq!(page_title("https://elevo.vip:443/", "fallback"), "elevo.vip");
}

#[test]
fn title_is_origin_otherwise() {
    assert_eq!(page_title("https://elevo.vip:8443/x", "fallback"), "https://elevo.vip:8443");
    assert_eq!(page_title("http://localhost:8080/a", "fallback"), "http://localhost:8080");
}

#[test]
fn title_falls_back_when_unparsable() {
    assert_eq!(page_title("::::", "Login"), "Login");
}

#[test]
fn parsed_url_parts() {
    let u = parse_web_url("https://Elevo.vip:8443/a/b?x=1&y=two%20words#frag").ok().unwrap();
    assert_eq!(u.scheme, "https");
    assert_eq!(u.host.as_deref(), Some("elevo.vip"));
    assert_eq!(u.port, Some(8443));
    assert_eq!(u.origin, "https://elevo.vip:8443");
    assert_eq!(u.href, "https://elevo.vip:8443/a/b?x=1&y=two%20words#frag");
    assert_eq!(u.query, vec![("x".to_string(), "1".to_string()), ("y".to_string(), "two words".to_string())]);
    assert_eq!(title_from_url(&u, "f"), "https://elevo.vip:8443");
    assert!(parse_web_url("relative/path").is_err());
}
