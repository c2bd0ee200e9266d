//! The main window and tray: where the main window may navigate, what the tray
//! menu does, and which webview's developer tools a shortcut toggles.

use vstd::prelude::*;
use crate::weburl::{UrlParts, parse_url, url_parse_outcome};

verus! {

/// Where the main window may navigate: in a debug build only the dev server
/// (`http://localhost:8080`), in a release build only the bundled frontend
/// (`tauri://...` or `http://tauri.localhost`).
pub open spec fn main_navigation_ok(u: UrlParts, debug: bool) -> bool {
    if debug {
        u.scheme == "http"@ && u.host == Some("localhost"@) && u.port == Some(8080u16)
    } else {
        u.scheme == "tauri"@ || (u.scheme == "http"@ && u.host == Some("tauri.localhost"@))
    }
}

fn host_is(host: &Option<String>, name: &str) -> (r: bool)
    ensures
        r == (crate::weburl::opt_string_view(*host) == Some(name@)),
{
    match host {
        Some(h) => crate::text::str_eq(h.as_str(), name),
        None => false,
    }
}

/// Whether the main window may navigate to `href`. An address that does not
/// parse is refused.
pub fn main_window_navigation_allowed(href: &str, debug: bool) -> (ok: bool)
    ensures
        match url_parse_outcome(href@) {
            Ok(u) => ok == main_navigation_ok(u, debug),
            Err(_) => !ok,
        },
{
    match parse_url(href) {
        Ok(u) => {
            let http = crate::text::str_eq(u.scheme.as_str(), "http");
            if debug {
                let port_ok = match u.port {
                    Some(p) => p == 8080,
                    None => false,
                };
                http && host_is(&u.host, "localhost") && port_ok
            } else {
                crate::text::str_eq(u.scheme.as_str(), "tauri") || (http && host_is(&u.host, "tauri.localhost"))
            }
        },
        Err(_) => false,
    }
}

/// What a click on the tray menu does.
pub enum TrayMenuAction {
    /// Show and focus the main window.
    Open,
    /// Quit the application.
    Quit,
    Ignore,
}

/// The action of the tray menu item `id`.
pub fn tray_menu_action(id: &str) -> (a: TrayMenuAction)
    ensures
        id@ == "open"@ ==> a is Open,
        id@ == "quit"@ ==> a is Quit,
        id@ != "open"@ && id@ != "quit"@ ==> a is Ignore,
{
    proof {
        reveal_strlit("open");
        reveal_strlit("quit");
        assert("open"@[0] != "quit"@[0]);
    }
    if crate::text::str_eq(id, "open") {
        TrayMenuAction::Open
    } else if crate::text::str_eq(id, "quit") {
        TrayMenuAction::Quit
    } else {
        TrayMenuAction::Ignore
    }
}

/// A window as the developer-tools shortcut sees it.
pub struct WindowFocus {
    pub label: String,
    /// The window has the focus (false when that cannot be told).
    pub focused: bool,
    /// The window is a side panel with a content webview.
    pub has_content: bool,
}

/// The first focused side panel among `ws` from position `i` on.
pub open spec fn first_focused_panel(ws: Seq<WindowFocus>, i: int) -> Option<int>
    decreases ws.len() - i,
{
    if i < 0 || i >= ws.len() {
        None
    } else if ws[i].focused && ws[i].has_content {
        Some(i)
    } else {
        first_focused_panel(ws, i + 1)
    }
}

/// The first focused window among `ws` from position `i` on.
pub open spec fn first_focused(ws: Seq<WindowFocus>, i: int) -> Option<int>
    decreases ws.len() - i,
{
    if i < 0 || i >= ws.len() {
        None
    } else if ws[i].focused {
        Some(i)
    } else {
        first_focused(ws, i + 1)
    }
}

/// The webview whose developer tools the shortcut toggles: the content of the
/// first focused side panel among all windows; failing that, for the first
/// focused webview window, its content webview if it has one, else the
/// window itself.
pub open spec fn devtools_choice(windows: Seq<WindowFocus>, webview_windows: Seq<WindowFocus>) -> Option<Seq<char>> {
    match first_focused_panel(windows, 0) {
        Some(i) => Some(windows[i].label@ + "--content"@),
        None => match first_focused(webview_windows, 0) {
            Some(j) => if webview_windows[j].has_content {
                Some(webview_windows[j].label@ + "--content"@)
            } else {
                Some(webview_windows[j].label@)
            },
            None => None,
        },
    }
}

/// The label of the webview whose developer tools are to be toggled, if any.
pub fn devtools_target(windows: &Vec<WindowFocus>, webview_windows: &Vec<WindowFocus>) -> (r: Option<String>)
    ensures
        match r {
            Some(l) => devtools_choice(windows@, webview_windows@) == Some(l@),
            None => devtools_choice(windows@, webview_windows@) is None,
        },
{
    let mut i: usize = 0;
    while i < windows.len()
        invariant
            i <= windows@.len(),
            first_focused_panel(windows@, 0) == first_focused_panel(windows@, i as int),
        decreases windows.len() - i,
    {
        if windows[i].focused && windows[i].has_content {
            return Some(crate::labels::side_panel_content_label(windows[i].label.as_str()));
        }
        i = i + 1;
    }
    assert(first_focused_panel(windows@, i as int) is None);
    let mut j: usize = 0;
    while j < webview_windows.len()
        invariant
            j <= webview_windows@.len(),
            first_focused_panel(windows@, 0) is None,
            first_focused(webview_windows@, 0) == first_focused(webview_windows@, j as int),
        decreases webview_windows.len() - j,
    {
        if webview_windows[j].focused {
            let w = &webview_windows[j];
            if w.has_content {
                return Some(crate::labels::side_panel_content_label(w.label.as_str()));
            } else {
                return Some(w.label.clone());
            }
        }
        j = j + 1;
    }
    assert(first_focused(webview_windows@, j as int) is None);
    None
}

} // verus!
