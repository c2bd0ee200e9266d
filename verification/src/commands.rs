//! The decisions behind the window commands: what each command opens, focuses
//! or updates, and with which title and scripts.

use vstd::prelude::*;
use crate::domain::{domain_allowed, is_domain_allowed, url_title, title_from_url};
use crate::json::{json_string_literal, push_json_string};
use crate::labels::{label_safe, bridge_explorer_label, task_board_label};
use crate::scripts::{
    sdk_script, history_script_head, history_script_tail, titlebar_state, sdk_receive, sdk_initialization_script,
    history_initialization_script, titlebar_initialization_script, titlebar_state_json, titlebar_receive_script,
    navigate_script, preview_receive_script, code_view_receive_script, preview_initialization_script,
    code_view_initialization_script, bridge_explorer_initialization_script, task_board_initialization_script,
    sdk_receive_script,
};
use crate::weburl::{ParsedUrl, UrlParts, parse_url, url_parse_outcome};

verus! {

/// The refusal of a URL outside the allowed domains.
pub open spec fn not_allowed_message(url: Seq<char>) -> Seq<char> {
    "Domain not in allowlist: "@ + url
}

/// Refuses a URL whose host is not in the allowed domains.
pub fn require_allowed_domain(url: &str) -> (r: Result<(), String>)
    ensures
        domain_allowed(url@) ==> r is Ok,
        !domain_allowed(url@) ==> (r matches Err(e) && e@ == not_allowed_message(url@)),
{
    if is_domain_allowed(url) {
        Ok(())
    } else {
        let mut e = String::from_str("Domain not in allowlist: ");
        e.append(url);
        Err(e)
    }
}

/// Parses a URL that a command is to open; the error is the parser's message.
pub fn parse_web_url(url: &str) -> (r: Result<ParsedUrl, String>)
    ensures
        match r {
            Ok(u) => url_parse_outcome(url@) == Ok::<UrlParts, Seq<char>>(u@),
            Err(e) => url_parse_outcome(url@) == Err::<UrlParts, Seq<char>>(e@),
        },
{
    parse_url(url)
}

/// What opening an in-app webview does.
pub enum OpenPlan {
    /// A window with the label is open already: show and focus it.
    Focus,
    /// Create a window at `href`, titled `title`, running `script` first.
    Create { href: String, title: String, script: String },
}

/// Decides what `open_webview` does for `url`, given whether a window labelled
/// `label` exists: refuse a URL outside the allowed domains, reuse an open
/// window, or create one whose title comes from the URL and whose
/// initialization script is the SDK template filled in for this webview.
pub fn open_webview_plan(
    url: &str,
    label: &str,
    room_id: &str,
    template: &str,
    theme: &str,
    window_exists: bool,
) -> (r: Result<OpenPlan, String>)
    ensures
        !domain_allowed(url@) ==> (r matches Err(e) && e@ == not_allowed_message(url@)),
        domain_allowed(url@) && window_exists ==> r matches Ok(OpenPlan::Focus),
        domain_allowed(url@) && !window_exists ==> match url_parse_outcome(url@) {
            Ok(u) => r matches Ok(OpenPlan::Create { href, title, script }) && href@ == u.href
                && title@ == url_title(u, label@) && script@ == sdk_script(template@, label@, room_id@, theme@),
            Err(m) => r matches Err(e) && e@ == m,
        },
{
    require_allowed_domain(url)?;
    if window_exists {
        return Ok(OpenPlan::Focus);
    }
    let parsed = parse_url(url)?;
    let script = sdk_initialization_script(template, label, room_id, theme);
    let title = title_from_url(&parsed, label);
    Ok(OpenPlan::Create { href: parsed.href, title, script })
}

/// The initialization script of a side panel's content webview: the SDK
/// script, a line break, and the history tracker.
pub open spec fn side_panel_script(template: Seq<char>, label: Seq<char>, room_id: Seq<char>, theme: Seq<char>) -> Seq<char> {
    sdk_script(template, label, room_id, theme) + "\n"@ + history_script_head() + json_string_literal(label)
        + history_script_tail()
}

/// What a side panel that is created shows.
pub struct SidePanelCreate {
    pub title: String,
    /// The initialization script of the content webview.
    pub content_script: String,
    /// The initialization script of the title-bar webview.
    pub titlebar_script: String,
}

/// The title and scripts of a new side panel showing `url`.
pub fn side_panel_create(url: &ParsedUrl, label: &str, room_id: &str, template: &str, theme: &str) -> (c: SidePanelCreate)
    ensures
        c.title@ == url_title(url@, label@),
        c.content_script@ == side_panel_script(template@, label@, room_id@, theme@),
        c.titlebar_script@ == "(function () {\n  window.__ElevoWebviewTitlebar_initialState__ = "@
            + titlebar_state(label@, url_title(url@, label@), url@.href, false, false) + ";\n})();"@,
{
    let title = title_from_url(url, label);
    let mut content_script = sdk_initialization_script(template, label, room_id, theme);
    content_script.append("\n");
    let history = history_initialization_script(label);
    content_script.append(history.as_str());
    let titlebar_script = titlebar_initialization_script(label, title.as_str(), url.href.as_str());
    SidePanelCreate { title, content_script, titlebar_script }
}

/// What an open side panel is told when it is asked to show `url` again.
pub struct SidePanelRefresh {
    pub title: String,
    /// The title bar's new state, as JSON text, for the main window.
    pub state_json: String,
    /// The script that hands that state to the title bar.
    pub titlebar_script: String,
    /// The script that sends the content webview to `url`.
    pub navigate_script: String,
}

/// The title, title-bar state and navigation of an open side panel that is
/// asked to show `url`.
pub fn side_panel_refresh(url: &ParsedUrl, label: &str) -> (r: SidePanelRefresh)
    ensures
        r.title@ == url_title(url@, label@),
        r.state_json@ == titlebar_state(label@, url_title(url@, label@), url@.href, false, false),
        r.titlebar_script@ == "window.__ElevoWebviewTitlebar_receive__ && window.__ElevoWebviewTitlebar_receive__("@
            + titlebar_state(label@, url_title(url@, label@), url@.href, false, false) + ")"@,
        r.navigate_script@ == "if (window.location.href !== "@ + json_string_literal(url@.href)
            + ") window.location.assign("@ + json_string_literal(url@.href) + ");"@,
{
    let title = title_from_url(url, label);
    let state_json = titlebar_state_json(label, title.as_str(), url.href.as_str(), false, false);
    let titlebar_script = titlebar_receive_script(state_json.as_str());
    let navigate_script = navigate_script(url.href.as_str());
    SidePanelRefresh { title, state_json, titlebar_script, navigate_script }
}

/// A new state for a side panel's title bar.
pub struct TitlebarUpdate {
    /// The label of the title-bar webview.
    pub titlebar_label: String,
    /// The state as JSON text, for the main window.
    pub state_json: String,
    /// The script that hands the state to the title bar.
    pub script: String,
}

/// The update sent to the title bar of side panel `label` and to the main
/// window when the panel's page, title or history changes.
pub fn titlebar_update(label: &str, title: &str, url: &str, can_go_back: bool, can_go_forward: bool) -> (u: TitlebarUpdate)
    ensures
        u.titlebar_label@ == label@ + "--titlebar"@,
        u.state_json@ == titlebar_state(label@, title@, url@, can_go_back, can_go_forward),
        u.script@ == "window.__ElevoWebviewTitlebar_receive__ && window.__ElevoWebviewTitlebar_receive__("@
            + titlebar_state(label@, title@, url@, can_go_back, can_go_forward) + ")"@,
{
    let state_json = titlebar_state_json(label, title, url, can_go_back, can_go_forward);
    let script = titlebar_receive_script(state_json.as_str());
    TitlebarUpdate { titlebar_label: crate::labels::side_panel_titlebar_label(label), state_json, script }
}

/// What opening a single-instance payload window (media preview, code view) does.
pub enum PayloadWindowPlan {
    /// The window is open: run `script` in it to hand over the payload, then focus it.
    Update { script: String },
    /// Create the window with `script` as its initialization script.
    Create { script: String },
}

/// Decides what `open_preview_window` does with `payload_json`.
pub fn preview_window_plan(window_exists: bool, theme: &str, payload_json: &str) -> (p: PayloadWindowPlan)
    ensures
        window_exists ==> (p matches PayloadWindowPlan::Update { script } && script@
            == "window.__ElevoPreview_receive__ && window.__ElevoPreview_receive__("@ + payload_json@ + ")"@),
        !window_exists ==> (p matches PayloadWindowPlan::Create { script } && script@
            == "(function () {\n  window.__ElevoPreview_initialTheme__ = "@ + json_string_literal(theme@)
            + ";\n  window.__ElevoPreview_initialPayload__ = "@ + payload_json@ + ";\n})();"@),
{
    if window_exists {
        PayloadWindowPlan::Update { script: preview_receive_script(payload_json) }
    } else {
        PayloadWindowPlan::Create { script: preview_initialization_script(theme, payload_json) }
    }
}

/// Decides what `open_code_view_window` does with `payload_json`.
pub fn code_view_window_plan(window_exists: bool, theme: &str, payload_json: &str) -> (p: PayloadWindowPlan)
    ensures
        window_exists ==> (p matches PayloadWindowPlan::Update { script } && script@
            == "window.__ElevoCodeView_receive__ && window.__ElevoCodeView_receive__("@ + payload_json@ + ")"@),
        !window_exists ==> (p matches PayloadWindowPlan::Create { script } && script@
            == "(function () {\n  window.__ElevoCodeView_initialTheme__ = "@ + json_string_literal(theme@)
            + ";\n  window.__ElevoCodeView_initialPayload__ = "@ + payload_json@ + ";\n})();"@),
{
    if window_exists {
        PayloadWindowPlan::Update { script: code_view_receive_script(payload_json) }
    } else {
        PayloadWindowPlan::Create { script: code_view_initialization_script(theme, payload_json) }
    }
}

/// Payload for opening a bridge workspace explorer window.
pub struct BridgeExplorerPayload {
    pub workspace_id: String,
    pub workspace_name: String,
    /// Bridge provider segment, verbatim from room state (already includes `-bridge`).
    pub bridge_provider: String,
    pub matrix_token: String,
    pub homeserver_url: String,
    /// Optional file path to select on open / push to an already-open window.
    pub initial_file_path: Option<String>,
}

/// Payload for opening a task board window.
pub struct TaskBoardPayload {
    pub workspace_id: String,
    pub workspace_name: String,
    /// Bridge provider segment, verbatim from room state (already includes `-bridge`).
    pub bridge_provider: String,
    pub matrix_token: String,
    pub homeserver_url: String,
}

/// The JSON value of an optional string.
pub open spec fn json_opt_string(o: Option<Seq<char>>) -> Seq<char> {
    match o {
        Some(s) => json_string_literal(s),
        None => "null"@,
    }
}

/// The JSON object of an explorer payload, with camel-case keys in the order
/// serde_json writes them.
pub open spec fn explorer_payload_json(p: BridgeExplorerPayload) -> Seq<char> {
    "{\"bridgeProvider\":"@ + json_string_literal(p.bridge_provider@) + ",\"homeserverUrl\":"@
        + json_string_literal(p.homeserver_url@) + ",\"initialFilePath\":"@
        + json_opt_string(crate::weburl::opt_string_view(p.initial_file_path)) + ",\"matrixToken\":"@
        + json_string_literal(p.matrix_token@) + ",\"workspaceId\":"@ + json_string_literal(p.workspace_id@)
        + ",\"workspaceName\":"@ + json_string_literal(p.workspace_name@) + "}"@
}

/// The JSON object of a task board payload.
pub open spec fn board_payload_json(p: TaskBoardPayload) -> Seq<char> {
    "{\"bridgeProvider\":"@ + json_string_literal(p.bridge_provider@) + ",\"homeserverUrl\":"@
        + json_string_literal(p.homeserver_url@) + ",\"matrixToken\":"@ + json_string_literal(p.matrix_token@)
        + ",\"workspaceId\":"@ + json_string_literal(p.workspace_id@) + ",\"workspaceName\":"@
        + json_string_literal(p.workspace_name@) + "}"@
}

/// The explorer payload as JSON text.
pub fn bridge_explorer_payload_json(p: &BridgeExplorerPayload) -> (r: String)
    ensures
        r@ == explorer_payload_json(*p),
{
    let mut out = String::from_str("{\"bridgeProvider\":");
    push_json_string(&mut out, p.bridge_provider.as_str());
    out.append(",\"homeserverUrl\":");
    push_json_string(&mut out, p.homeserver_url.as_str());
    out.append(",\"initialFilePath\":");
    match &p.initial_file_path {
        Some(path) => push_json_string(&mut out, path.as_str()),
        None => out.append("null"),
    }
    out.append(",\"matrixToken\":");
    push_json_string(&mut out, p.matrix_token.as_str());
    out.append(",\"workspaceId\":");
    push_json_string(&mut out, p.workspace_id.as_str());
    out.append(",\"workspaceName\":");
    push_json_string(&mut out, p.workspace_name.as_str());
    out.append("}");
    out
}

/// The task board payload as JSON text.
pub fn task_board_payload_json(p: &TaskBoardPayload) -> (r: String)
    ensures
        r@ == board_payload_json(*p),
{
    let mut out = String::from_str("{\"bridgeProvider\":");
    push_json_string(&mut out, p.bridge_provider.as_str());
    out.append(",\"homeserverUrl\":");
    push_json_string(&mut out, p.homeserver_url.as_str());
    out.append(",\"matrixToken\":");
    push_json_string(&mut out, p.matrix_token.as_str());
    out.append(",\"workspaceId\":");
    push_json_string(&mut out, p.workspace_id.as_str());
    out.append(",\"workspaceName\":");
    push_json_string(&mut out, p.workspace_name.as_str());
    out.append("}");
    out
}

/// What opening a workspace window (explorer or task board) does.
pub enum WorkspaceWindowPlan {
    /// The window is open: focus it, then run `script` in it if there is one.
    Focus { select_script: Option<String> },
    /// Create the window labelled `label` with `script` as its initialization script.
    Create { label: String, script: String },
}

/// Decides what `open_bridge_explorer_window` does, given whether the window
/// labelled `bridge_explorer_label(payload.workspace_id)` is open: focus it and
/// push the requested file (when one is given and not empty), or create it.
pub fn bridge_explorer_plan(payload: &BridgeExplorerPayload, window_exists: bool, theme: &str) -> (p: WorkspaceWindowPlan)
    ensures
        window_exists ==> (p matches WorkspaceWindowPlan::Focus { select_script } && match payload.initial_file_path {
            Some(path) if path@.len() > 0 => select_script matches Some(s)
                && s@ == sdk_receive("bridge-explorer-select-file"@, json_string_literal(path@)),
            _ => select_script is None,
        }),
        !window_exists ==> (p matches WorkspaceWindowPlan::Create { label, script }
            && label@ == "bridge-explorer-"@ + label_safe(payload.workspace_id@)
            && script@ == "(function () {\n  window.__ElevoBridgeExplorer_initialTheme__ = "@
                + json_string_literal(theme@) + ";\n  window.__ElevoBridgeExplorer_initialPayload__ = "@
                + explorer_payload_json(*payload) + ";\n})();"@),
{
    if window_exists {
        let script = match &payload.initial_file_path {
            Some(path) => {
                if path.as_str().unicode_len() > 0 {
                    let data = crate::json::json_quote(path.as_str());
                    Some(sdk_receive_script("bridge-explorer-select-file", data.as_str()))
                } else {
                    None
                }
            },
            None => None,
        };
        WorkspaceWindowPlan::Focus { select_script: script }
    } else {
        let json = bridge_explorer_payload_json(payload);
        let script = bridge_explorer_initialization_script(theme, json.as_str());
        WorkspaceWindowPlan::Create { label: bridge_explorer_label(payload.workspace_id.as_str()), script }
    }
}

/// Decides what `open_task_board_window` does, given whether the window
/// labelled `task_board_label(payload.workspace_id)` is open.
pub fn task_board_plan(payload: &TaskBoardPayload, window_exists: bool, theme: &str) -> (p: WorkspaceWindowPlan)
    ensures
        window_exists ==> p matches WorkspaceWindowPlan::Focus { select_script: None },
        !window_exists ==> (p matches WorkspaceWindowPlan::Create { label, script }
            && label@ == "task-board-"@ + label_safe(payload.workspace_id@)
            && script@ == "(function () {\n  window.__ElevoTaskBoard_initialTheme__ = "@
                + json_string_literal(theme@) + ";\n  window.__ElevoTaskBoard_initialPayload__ = "@
                + board_payload_json(*payload) + ";\n})();"@),
{
    if window_exists {
        WorkspaceWindowPlan::Focus { select_script: None }
    } else {
        let json = task_board_payload_json(payload);
        let script = task_board_initialization_script(theme, json.as_str());
        WorkspaceWindowPlan::Create { label: task_board_label(payload.workspace_id.as_str()), script }
    }
}

} // verus!
