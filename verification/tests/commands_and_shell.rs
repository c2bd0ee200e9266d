use elevo_messenger::commands::{
    bridge_explorer_payload_json, bridge_explorer_plan, code_view_window_plan, open_webview_plan, parse_web_url,
    preview_window_plan, require_allowed_domain, side_panel_create, side_panel_refresh, task_board_payload_json,
    task_board_plan, titlebar_update, BridgeExplorerPayload, OpenPlan, PayloadWindowPlan, TaskBoardPayload,
    WorkspaceWindowPlan,
};
use elevo_messenger::menu::{app_menu_action, find_menu_entry, update_menu_text, AppMenuAction, MenuEntry};
use elevo_messenger::routing::{delivery_target, theme_target};
use elevo_messenger::shell::{devtools_target, main_window_navigation_allowed, tray_menu_action, TrayMenuAction, WindowFocus};

const TEMPLATE: &str = "init(__WEBVIEW_LABEL__, __ROOM_ID__, __THEME__);";

#[test]
fn open_webview_refuses_other_domains() {
    let e = open_webview_plan("https://evil.com/x", "w", "!r", TEMPLATE, "light", false).err().unwrap();
    assert_eq!(e, "Domain not in allowlist: https://evil.com/x");
    assert_eq!(require_allowed_domain("ftp://"), Err("Domain not in allowlist: ftp://".to_string()));
    assert!(require_allowed_domain("https://elevo.vip").is_ok());
}

#[test]
fn open_webview_reuses_open_window() {
    assert!(matches!(
        open_webview_plan("https://elevo.vip/", "w", "!r", TEMPLATE, "light", true),
        Ok(OpenPlan::Focus)
    ));
}

#[test]
fn open_webview_creates_window() {
    match open_webview_plan("https://docs.elevo.vip/a", "w1", "!r:x", TEMPLATE, "dark", false) {
        Ok(OpenPlan::Create { href, title, script }) => {
            assert_eq!(href, "https://docs.elevo.vip/a");
            assert_eq!(title, "docs.elevo.vip");
            assert_eq!(script, "init(\"w1\", \"!r:x\", \"dark\");");
        }
        _ => panic!("expected create"),
    }
}

#[test]
fn side_panel_pages() {
    let u = parse_web_url("https://elevo.vip:8443/ws?file=a.txt").ok().unwrap();
    let c = side_panel_create(&u, "p", "!r", "T(__WEBVIEW_LABEL__)", "light");
    assert_eq!(c.title, "https://elevo.vip:8443");
    assert!(c.content_script.starts_with("T(\"p\")\n(function () {\n  if (window.__ElevoWebviewHistoryInstalled__)"));
    assert_eq!(
        c.titlebar_script,
        "(function () {\n  window.__ElevoWebviewTitlebar_initialState__ = {\"canGoBack\":false,\"canGoForward\":false,\"label\":\"p\",\"title\":\"https://elevo.vip:8443\",\"url\":\"https://elevo.vip:8443/ws?file=a.txt\"};\n})();"
    );
    let r = side_panel_refresh(&u, "p");
    assert_eq!(r.title, "https://elevo.vip:8443");
    assert_eq!(
        r.navigate_script,
        "if (window.location.href !== \"https://elevo.vip:8443/ws?file=a.txt\") window.location.assign(\"https://elevo.vip:8443/ws?file=a.txt\");"
    );
    assert_eq!(r.titlebar_script, format!("window.__ElevoWebviewTitlebar_receive__ && window.__ElevoWebviewTitlebar_receive__({})", r.state_json));
    let t = titlebar_update("p", "x", "y", false, true);
    assert_eq!(t.titlebar_label, "p--titlebar");
    assert_eq!(t.state_json, "{\"canGoBack\":false,\"canGoForward\":true,\"label\":\"p\",\"title\":\"x\",\"url\":\"y\"}");
}

#[test]
fn payload_windows() {
    match preview_window_plan(true, "light", "{\"k\":1}") {
        PayloadWindowPlan::Update { script } => {
            assert_eq!(script, "window.__ElevoPreview_receive__ && window.__ElevoPreview_receive__({\"k\":1})")
        }
        _ => panic!("expected update"),
    }
    match code_view_window_plan(false, "dark", "{}") {
        PayloadWindowPlan::Create { script } => assert_eq!(
            script,
            "(function () {\n  window.__ElevoCodeView_initialTheme__ = \"dark\";\n  window.__ElevoCodeView_initialPayload__ = {};\n})();"
        ),
        _ => panic!("expected create"),
    }
}

fn explorer(path: Option<&str>) -> BridgeExplorerPayload {
    BridgeExplorerPayload {
        workspace_id: "ws/1".to_string(),
        workspace_name: "Team".to_string(),
        bridge_provider: "gh-bridge".to_string(),
        matrix_token: "tok".to_string(),
        homeserver_url: "https://hs.elevo.vip".to_string(),
        initial_file_path: path.map(|p| p.to_string()),
    }
}

#[test]
fn explorer_payload_json_sorted_keys() {
    assert_eq!(
        bridge_explorer_payload_json(&explorer(None)),
        "{\"bridgeProvider\":\"gh-bridge\",\"homeserverUrl\":\"https://hs.elevo.vip\",\"initialFilePath\":null,\"matrixToken\":\"tok\",\"workspaceId\":\"ws/1\",\"workspaceName\":\"Team\"}"
    );
    assert_eq!(
        bridge_explorer_payload_json(&explorer(Some("src/a.rs"))),
        "{\"bridgeProvider\":\"gh-bridge\",\"homeserverUrl\":\"https://hs.elevo.vip\",\"initialFilePath\":\"src/a.rs\",\"matrixToken\":\"tok\",\"workspaceId\":\"ws/1\",\"workspaceName\":\"Team\"}"
    );
}

#[test]
fn explorer_plan_focus_pushes_file() {
    match bridge_explorer_plan(&explorer(Some("src/a.rs")), true, "light") {
        WorkspaceWindowPlan::Focus { select_script } => assert_eq!(
            select_script.as_deref(),
            Some("window.__ElevoMessengerSDK_receive__ && window.__ElevoMessengerSDK_receive__(\"bridge-explorer-select-file\", \"src/a.rs\")")
        ),
        _ => panic!("expected focus"),
    }
    assert!(matches!(
        bridge_explorer_plan(&explorer(Some("")), true, "light"),
        WorkspaceWindowPlan::Focus { select_script: None }
    ));
    assert!(matches!(
        bridge_explorer_plan(&explorer(None), true, "light"),
        WorkspaceWindowPlan::Focus { select_script: None }
    ));
}

#[test]
fn explorer_plan_creates_window() {
    match bridge_explorer_plan(&explorer(None), false, "dark") {
        WorkspaceWindowPlan::Create { label, script } => {
            assert_eq!(label, "bridge-explorer-ws_1");
            assert!(script.starts_with("(function () {\n  window.__ElevoBridgeExplorer_initialTheme__ = \"dark\";\n  window.__ElevoBridgeExplorer_initialPayload__ = {\"bridgeProvider\""));
        }
        _ => panic!("expected create"),
    }
}

#[test]
fn task_board_plans() {
    let p = TaskBoardPayload {
        workspace_id: "w 2".to_string(),
        workspace_name: "N".to_string(),
        bridge_provider: "b".to_string(),
        matrix_token: "t".to_string(),
        homeserver_url: "h".to_string(),
    };
    assert_eq!(
        task_board_payload_json(&p),
        "{\"bridgeProvider\":\"b\",\"homeserverUrl\":\"h\",\"matrixToken\":\"t\",\"workspaceId\":\"w 2\",\"workspaceName\":\"N\"}"
    );
    assert!(matches!(task_board_plan(&p, true, "light"), WorkspaceWindowPlan::Focus { select_script: None }));
    match task_board_plan(&p, false, "light") {
        WorkspaceWindowPlan::Create { label, script } => {
            assert_eq!(label, "task-board-w_2");
            assert_eq!(script, "(function () {\n  window.__ElevoTaskBoard_initialTheme__ = \"light\";\n  window.__ElevoTaskBoard_initialPayload__ = {\"bridgeProvider\":\"b\",\"homeserverUrl\":\"h\",\"matrixToken\":\"t\",\"workspaceId\":\"w 2\",\"workspaceName\":\"N\"};\n})();");
        }
        _ => panic!("expected create"),
    }
}

#[test]
fn delivery_prefers_panel_content() {
    assert_eq!(delivery_target("p", true, true), Some("p--content".to_string()));
    assert_eq!(delivery_target("p", false, true), Some("p".to_string()));
    assert_eq!(delivery_target("p", false, false), None);
}

#[test]
fn theme_targets_skip_main_and_panel_children() {
    assert_eq!(theme_target("p", true), Some("p--content".to_string()));
    assert_eq!(theme_target("media-preview", false), Some("media-preview".to_string()));
    assert_eq!(theme_target("main", false), None);
    assert_eq!(theme_target("p--titlebar", false), None);
    assert_eq!(theme_target("p--content", false), None);
}

#[test]
fn main_window_navigation_policy() {
    assert!(main_window_navigation_allowed("http://localhost:8080/#/room", true));
    assert!(!main_window_navigation_allowed("http://localhost:8081/", true));
    assert!(!main_window_navigation_allowed("tauri://localhost/", true));
    assert!(main_window_navigation_allowed("tauri://localhost/index.html", false));
    assert!(main_window_navigation_allowed("http://tauri.localhost/", false));
    assert!(!main_window_navigation_allowed("https://tauri.localhost/", false));
    assert!(!main_window_navigation_allowed("https://elevo.vip/", false));
}

#[test]
fn tray_and_app_menu_actions() {
    assert!(matches!(tray_menu_action("open"), TrayMenuAction::Open));
    assert!(matches!(tray_menu_action("quit"), TrayMenuAction::Quit));
    assert!(matches!(tray_menu_action("other"), TrayMenuAction::Ignore));
    assert!(matches!(app_menu_action("check_for_updates"), AppMenuAction::CheckForUpdates));
    assert!(matches!(app_menu_action("toggle_developer_tools"), AppMenuAction::ToggleDevtools));
    assert!(matches!(app_menu_action("quit"), AppMenuAction::Ignore));
}

#[test]
fn update_menu_texts() {
    assert_eq!(update_menu_text(false, false), "Check for Updates...");
    assert_eq!(update_menu_text(true, false), "Update and Restart");
    assert_eq!(update_menu_text(true, true), "Restart to Update");
    assert_eq!(update_menu_text(false, true), "Restart to Update");
}

fn entry(id: &str, is_item: bool, children: Vec<MenuEntry>) -> MenuEntry {
    MenuEntry { id: id.to_string(), is_item, children }
}

#[test]
fn menu_search_is_depth_first() {
    let menu = vec![
        entry("app", false, vec![entry("about", true, vec![]), entry("check_for_updates", true, vec![])]),
        entry("edit", false, vec![entry("undo", true, vec![])]),
        entry("help", false, vec![entry("toggle_developer_tools", true, vec![])]),
    ];
    assert_eq!(find_menu_entry(&menu, "check_for_updates"), Some(vec![0, 1]));
    assert_eq!(find_menu_entry(&menu, "toggle_developer_tools"), Some(vec![2, 0]));
    assert_eq!(find_menu_entry(&menu, "edit"), Some(vec![1]));
    assert_eq!(find_menu_entry(&menu, "nope"), None);
}

fn focus(label: &str, focused: bool, has_content: bool) -> WindowFocus {
    WindowFocus { label: label.to_string(), focused, has_content }
}

#[test]
fn devtools_targets() {
    let windows = vec![focus("main", false, false), focus("panel", true, true)];
    assert_eq!(devtools_target(&windows, &vec![]), Some("panel--content".to_string()));
    let webview_windows = vec![focus("main", false, false), focus("w1", true, false)];
    assert_eq!(devtools_target(&vec![focus("panel", false, true)], &webview_windows), Some("w1".to_string()));
    assert_eq!(devtools_target(&vec![], &vec![focus("x", true, true)]), Some("x--content".to_string()));
    assert_eq!(devtools_target(&vec![focus("a", false, true)], &vec![focus("b", false, false)]), None);
}
