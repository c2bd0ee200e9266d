use elevo_messenger::oauth::{callback_payload_json, oauth_event_names, query_lookup, OAuthFlow, OAuthNavigation};
use elevo_messenger::room_map::RoomMap;
use elevo_messenger::theme::CurrentTheme;
use elevo_messenger::updater::{check_for_update_event, check_for_update_payload, set_apply_mode, UpdaterMode};

fn sorted(mut v: Vec<String>) -> Vec<String> {
    v.sort();
    v
}

#[test]
fn room_map_routes_by_room() {
    let mut m = RoomMap::new();
    m.insert("w1".to_string(), "!a".to_string());
    m.insert("w2".to_string(), "!b".to_string());
    m.insert("w3".to_string(), "!a".to_string());
    assert_eq!(sorted(m.labels_in_room("!a")), vec!["w1", "w3"]);
    assert_eq!(m.labels_in_room("!b"), vec!["w2"]);
    assert!(m.labels_in_room("!c").is_empty());
    assert_eq!(sorted(m.labels()), vec!["w1", "w2", "w3"]);
}

#[test]
fn room_map_reinsert_moves_room() {
    let mut m = RoomMap::new();
    m.insert("w1".to_string(), "!a".to_string());
    m.insert("w1".to_string(), "!b".to_string());
    assert!(m.labels_in_room("!a").is_empty());
    assert_eq!(m.labels_in_room("!b"), vec!["w1"]);
    assert_eq!(m.labels(), vec!["w1"]);
}

#[test]
fn room_map_remove_forgets() {
    let mut m = RoomMap::new();
    m.insert("w1".to_string(), "!a".to_string());
    m.insert("w2".to_string(), "!a".to_string());
    m.remove("w1");
    assert_eq!(m.labels_in_room("!a"), vec!["w2"]);
    m.remove("missing");
    assert_eq!(m.labels(), vec!["w2"]);
    m.remove("w2");
    assert!(m.labels().is_empty());
}

#[test]
fn theme_starts_light_and_accepts_kinds() {
    let mut t = CurrentTheme::new();
    assert_eq!(t.kind(), "light");
    let js = t.set_theme("dark").ok().unwrap();
    assert_eq!(js, "window.__ElevoMessengerSDK_receive__ && window.__ElevoMessengerSDK_receive__(\"theme_change\", \"dark\")");
    assert_eq!(t.kind(), "dark");
}

#[test]
fn theme_refuses_unknown_kind() {
    let mut t = CurrentTheme::new();
    let e = t.set_theme("blue").err().unwrap();
    assert_eq!(e, "Invalid theme kind: blue");
    assert_eq!(t.kind(), "light");
    assert!(t.set_theme("Dark").is_err());
    assert_eq!(t.kind(), "light");
}

#[test]
fn updater_mode_selects_event() {
    let mut m = UpdaterMode::new();
    assert_eq!(check_for_update_event(&m), "check-for-updates");
    set_apply_mode(&mut m, true);
    assert_eq!(check_for_update_event(&m), "apply-update");
    set_apply_mode(&mut m, false);
    assert_eq!(check_for_update_event(&m), "check-for-updates");
    assert_eq!(check_for_update_payload(), "{\"openSettings\":true}");
}

#[test]
fn oauth_event_names_derive_from_label() {
    let (cb, closed) = oauth_event_names("oauth-1");
    assert_eq!(cb, "oauth-1--callback");
    assert_eq!(closed, "oauth-1--window-closed");
}

#[test]
fn oauth_callback_with_code_and_state() {
    let mut f = OAuthFlow::new();
    assert!(f.on_destroyed());
    match f.on_navigation("vip.elevo.messenger://callback?code=abc&state=xyz") {
        OAuthNavigation::Intercept { payload_json } => {
            assert_eq!(payload_json, "{\"code\":\"abc\",\"state\":\"xyz\"}")
        }
        OAuthNavigation::Allow => panic!("callback not intercepted"),
    }
    assert!(!f.on_destroyed());
}

#[test]
fn oauth_callback_with_error() {
    let mut f = OAuthFlow::new();
    match f.on_navigation("vip.elevo.messenger://cb?error=access_denied&error_description=User%20said%20no") {
        OAuthNavigation::Intercept { payload_json } => assert_eq!(
            payload_json,
            "{\"error\":\"access_denied\",\"errorDescription\":\"User said no\"}"
        ),
        OAuthNavigation::Allow => panic!("callback not intercepted"),
    }
}

#[test]
fn oauth_callback_error_without_description() {
    let pairs = vec![("error".to_string(), "server_error".to_string())];
    assert_eq!(callback_payload_json(&pairs), "{\"error\":\"server_error\",\"errorDescription\":\"\"}");
}

#[test]
fn oauth_callback_missing_state() {
    let mut f = OAuthFlow::new();
    match f.on_navigation("vip.elevo.messenger://cb?code=abc") {
        OAuthNavigation::Intercept { payload_json } => assert_eq!(
            payload_json,
            "{\"error\":\"invalid_response\",\"errorDescription\":\"Missing code or state parameter in callback.\"}"
        ),
        OAuthNavigation::Allow => panic!("callback not intercepted"),
    }
    assert!(!f.on_destroyed());
}

#[test]
fn oauth_other_navigation_allowed() {
    let mut f = OAuthFlow::new();
    assert!(matches!(f.on_navigation("https://login.elevo.vip/authorize?x=1"), OAuthNavigation::Allow));
    assert!(f.on_destroyed());
}

#[test]
fn query_lookup_takes_last_value() {
    let pairs = vec![
        ("code".to_string(), "first".to_string()),
        ("state".to_string(), "s".to_string()),
        ("code".to_string(), "second".to_string()),
    ];
    assert_eq!(query_lookup(&pairs, "code"), Some("second".to_string()));
    assert_eq!(query_lookup(&pairs, "missing"), None);
    assert_eq!(callback_payload_json(&pairs), "{\"code\":\"second\",\"state\":\"s\"}");
}
