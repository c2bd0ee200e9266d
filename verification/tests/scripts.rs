use elevo_messenger::scripts::{
    bridge_explorer_initialization_script, code_view_initialization_script, code_view_receive_script,
    history_initialization_script, label_event_json, navigate_script, preview_initialization_script,
    preview_receive_script, sdk_initialization_script, sdk_message_json, sdk_receive_script,
    task_board_initialization_script, titlebar_initialization_script, titlebar_receive_script,
    titlebar_state_json,
};

#[test]
fn sdk_placeholders_filled_with_json() {
    let template = "var l = __WEBVIEW_LABEL__; var r = __ROOM_ID__; var t = __THEME__;";
    assert_eq!(
        sdk_initialization_script(template, "w1", "!room:x", "dark"),
        "var l = \"w1\"; var r = \"!room:x\"; var t = \"dark\";"
    );
}

#[test]
fn sdk_placeholders_escape_values() {
    let template = "__WEBVIEW_LABEL__|__ROOM_ID__";
    assert_eq!(sdk_initialization_script(template, "a\"b", "c\\d\n", "light"), "\"a\\\"b\"|\"c\\\\d\\n\"");
}

#[test]
fn sdk_placeholders_repeated_and_absent() {
    assert_eq!(sdk_initialization_script("__THEME____THEME__", "l", "r", "dark"), "\"dark\"\"dark\"");
    assert_eq!(sdk_initialization_script("no placeholders", "l", "r", "dark"), "no placeholders");
    assert_eq!(sdk_initialization_script("", "l", "r", "dark"), "");
}

#[test]
fn sdk_values_are_not_scanned_again() {
    assert_eq!(
        sdk_initialization_script("__WEBVIEW_LABEL__", "__ROOM_ID__", "r", "light"),
        "\"__ROOM_ID__\""
    );
    assert_eq!(
        sdk_initialization_script("__WEBVIEW_LABEL__/__ROOM_ID__", "__THEME__", "__WEBVIEW_LABEL__", "dark"),
        "\"__THEME__\"/\"__WEBVIEW_LABEL__\""
    );
    assert_eq!(sdk_initialization_script("___ROOM_ID__", "l", "r", "dark"), "_\"r\"");
}

#[test]
fn sdk_values_escape_control_characters() {
    assert_eq!(
        sdk_initialization_script("__ROOM_ID__", "l", "\u{1}\u{8}\t\r\u{c}\u{1f}\u{7f}é", "dark"),
        "\"\\u0001\\b\\t\\r\\f\\u001f\u{7f}é\""
    );
}

#[test]
fn payload_window_scripts() {
    assert_eq!(
        preview_initialization_script("light", "{\"a\":1}"),
        "(function () {\n  window.__ElevoPreview_initialTheme__ = \"light\";\n  window.__ElevoPreview_initialPayload__ = {\"a\":1};\n})();"
    );
    assert_eq!(
        code_view_initialization_script("dark", "null"),
        "(function () {\n  window.__ElevoCodeView_initialTheme__ = \"dark\";\n  window.__ElevoCodeView_initialPayload__ = null;\n})();"
    );
    assert_eq!(
        bridge_explorer_initialization_script("dark", "{}"),
        "(function () {\n  window.__ElevoBridgeExplorer_initialTheme__ = \"dark\";\n  window.__ElevoBridgeExplorer_initialPayload__ = {};\n})();"
    );
    assert_eq!(
        task_board_initialization_script("light", "[]"),
        "(function () {\n  window.__ElevoTaskBoard_initialTheme__ = \"light\";\n  window.__ElevoTaskBoard_initialPayload__ = [];\n})();"
    );
    assert_eq!(preview_receive_script("{\"b\":2}"), "window.__ElevoPreview_receive__ && window.__ElevoPreview_receive__({\"b\":2})");
    assert_eq!(code_view_receive_script("1"), "window.__ElevoCodeView_receive__ && window.__ElevoCodeView_receive__(1)");
}

#[test]
fn history_script_embeds_label() {
    let s = history_initialization_script("panel-\"1");
    assert!(s.starts_with("(function () {\n  if (window.__ElevoWebviewHistoryInstalled__) return;\n"));
    assert!(s.contains("  const LABEL = \"panel-\\\"1\";\n  const tauriInternals = window.__TAURI_INTERNALS__;"));
    assert!(s.ends_with("  window.setTimeout(report, 0);\n})();"));
}

#[test]
fn titlebar_state_and_scripts() {
    let state = titlebar_state_json("p", "elevo.vip", "https://elevo.vip/", true, false);
    assert_eq!(
        state,
        "{\"canGoBack\":true,\"canGoForward\":false,\"label\":\"p\",\"title\":\"elevo.vip\",\"url\":\"https://elevo.vip/\"}"
    );
    assert_eq!(
        titlebar_initialization_script("p", "t", "u"),
        "(function () {\n  window.__ElevoWebviewTitlebar_initialState__ = {\"canGoBack\":false,\"canGoForward\":false,\"label\":\"p\",\"title\":\"t\",\"url\":\"u\"};\n})();"
    );
    assert_eq!(
        titlebar_receive_script("{}"),
        "window.__ElevoWebviewTitlebar_receive__ && window.__ElevoWebviewTitlebar_receive__({})"
    );
}

#[test]
fn sdk_messages() {
    assert_eq!(
        sdk_receive_script("theme_change", "\"dark\""),
        "window.__ElevoMessengerSDK_receive__ && window.__ElevoMessengerSDK_receive__(\"theme_change\", \"dark\")"
    );
    assert_eq!(
        sdk_message_json("w1", "!r:x", "ping", "{\"n\":1}"),
        "{\"channel\":\"ping\",\"data\":{\"n\":1},\"roomId\":\"!r:x\",\"source\":\"w1\"}"
    );
    assert_eq!(label_event_json("w1"), "{\"label\":\"w1\"}");
    assert_eq!(
        navigate_script("https://elevo.vip/?file=a"),
        "if (window.location.href !== \"https://elevo.vip/?file=a\") window.location.assign(\"https://elevo.vip/?file=a\");"
    );
}
