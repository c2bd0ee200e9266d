//! Which webview a message for a given label is delivered to.

use vstd::prelude::*;
use crate::labels::side_panel_content_label;
use crate::text::{seq_ends_with, str_ends_with};

verus! {

/// Delivery to `label`: the side panel's content webview when there is one,
/// otherwise the webview or window of that label when there is one.
pub open spec fn delivery(label: Seq<char>, content_exists: bool, window_exists: bool) -> Option<Seq<char>> {
    if content_exists {
        Some(label + "--content"@)
    } else if window_exists {
        Some(label)
    } else {
        None
    }
}

/// The label of the webview that receives a message addressed to `label`.
/// `content_exists` says whether `label` has a side-panel content webview,
/// `window_exists` whether a webview labelled `label` itself exists.
pub fn delivery_target(label: &str, content_exists: bool, window_exists: bool) -> (r: Option<String>)
    ensures
        match r {
            Some(t) => delivery(label@, content_exists, window_exists) == Some(t@),
            None => delivery(label@, content_exists, window_exists) is None,
        },
{
    if content_exists {
        Some(side_panel_content_label(label))
    } else if window_exists {
        Some(String::from_str(label))
    } else {
        None
    }
}

/// A webview window that gets a theme change directly: any but the main
/// window and the title-bar and content webviews of side panels.
pub open spec fn takes_theme_directly(label: Seq<char>) -> bool {
    label != "main"@ && !seq_ends_with(label, "--titlebar"@) && !seq_ends_with(label, "--content"@)
}

/// Which webview of the webview window `label` receives a theme change: its
/// side-panel content webview if it has one, else the window itself when it
/// takes the theme directly.
pub fn theme_target(label: &str, content_exists: bool) -> (r: Option<String>)
    ensures
        match r {
            Some(t) => delivery(label@, content_exists, takes_theme_directly(label@)) == Some(t@),
            None => delivery(label@, content_exists, takes_theme_directly(label@)) is None,
        },
{
    if content_exists {
        return Some(side_panel_content_label(label));
    }
    let is_main = crate::text::str_eq(label, "main");
    let is_titlebar = str_ends_with(label, "--titlebar");
    let is_content = str_ends_with(label, "--content");
    if !is_main && !is_titlebar && !is_content {
        Some(String::from_str(label))
    } else {
        None
    }
}

/// Law: a message (or theme change) for a side panel whose content webview
/// exists goes to that content webview, `label` followed by `--content`,
/// whether or not a webview carries the panel's own label; without a content
/// webview it goes to the webview of that label if there is one, and else
/// nowhere.
pub proof fn law_content_webview_first(label: Seq<char>, window_exists: bool)
    ensures
        delivery(label, true, window_exists) == Some(label + "--content"@),
        delivery(label, false, true) == Some(label),
        delivery(label, false, false) is None,
{
}

} // verus!
