//! The current theme kind, and the message that tells child webviews about a change.

use vstd::prelude::*;
use crate::json::json_string_literal;
use crate::scripts::{sdk_receive, sdk_receive_script};

verus! {

/// The theme kinds that may be set.
pub open spec fn is_theme_kind(k: Seq<char>) -> bool {
    k == "light"@ || k == "dark"@
}

/// The theme after a request to set `requested`: the request when it names a
/// theme kind, otherwise the theme as it was.
pub open spec fn theme_after(current: Seq<char>, requested: Seq<char>) -> Seq<char> {
    if is_theme_kind(requested) { requested } else { current }
}

/// The current theme kind, `light` until it is changed.
pub struct CurrentTheme {
    kind: String,
}

impl View for CurrentTheme {
    type V = Seq<char>;

    closed spec fn view(&self) -> Seq<char> {
        self.kind@
    }
}

impl CurrentTheme {
    /// The theme the application starts with.
    pub fn new() -> (t: CurrentTheme)
        ensures
            t@ == "light"@,
    {
        CurrentTheme { kind: String::from_str("light") }
    }

    /// The current theme kind.
    pub fn kind(&self) -> (k: String)
        ensures
            k@ == self@,
    {
        self.kind.clone()
    }

    /// Sets the theme kind. A kind other than `light` or `dark` is refused and
    /// leaves the theme unchanged; an accepted one gives the script that
    /// delivers the `theme_change` message to a child webview.
    pub fn set_theme(&mut self, theme_kind: &str) -> (r: Result<String, String>)
        ensures
            final(self)@ == theme_after(old(self)@, theme_kind@),
            is_theme_kind(theme_kind@) ==> (r matches Ok(js)
                && js@ == sdk_receive("theme_change"@, json_string_literal(theme_kind@))),
            !is_theme_kind(theme_kind@) ==> (r matches Err(e) && e@ == "Invalid theme kind: "@ + theme_kind@),
    {
        let light = crate::text::str_eq(theme_kind, "light");
        let dark = crate::text::str_eq(theme_kind, "dark");
        if !light && !dark {
            let mut e = String::from_str("Invalid theme kind: ");
            e.append(theme_kind);
            return Err(e);
        }
        self.kind = String::from_str(theme_kind);
        let data = crate::json::json_quote(theme_kind);
        Ok(sdk_receive_script("theme_change", data.as_str()))
    }
}

/// Law: a theme kind that was set is the one read back.
pub proof fn law_theme_read_after_write(current: Seq<char>, requested: Seq<char>)
    requires
        is_theme_kind(requested),
    ensures
        theme_after(current, requested) == requested,
{
}

/// Law: a refused request leaves the theme as it was.
pub proof fn law_theme_refused_unchanged(current: Seq<char>, requested: Seq<char>)
    requires
        !is_theme_kind(requested),
    ensures
        theme_after(current, requested) == current,
{
}

/// Law: the theme is always a theme kind, given that it started as one.
pub proof fn law_theme_stays_valid(current: Seq<char>, requested: Seq<char>)
    requires
        is_theme_kind(current),
    ensures
        is_theme_kind(theme_after(current, requested)),
{
}

} // verus!
