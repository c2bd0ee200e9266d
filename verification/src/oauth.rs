//! The OAuth/OIDC login window: recognising the redirect back to the app,
//! turning it into a result for the main window, and whether a closed window
//! is to be reported.

use vstd::prelude::*;
use crate::json::{json_string_literal, push_json_string};
use crate::weburl::{parse_url, url_parse_outcome};

verus! {

/// The event names for the login window `label`: its result, and its being
/// closed by the user.
pub fn oauth_event_names(label: &str) -> (r: (String, String))
    ensures
        r.0@ == label@ + "--callback"@,
        r.1@ == label@ + "--window-closed"@,
{
    let mut callback = String::from_str(label);
    callback.append("--callback");
    let mut closed = String::from_str(label);
    closed.append("--window-closed");
    (callback, closed)
}

/// The value of `key` in the query pairs, the last one when it occurs more than
/// once (as collecting them into a map keeps it).
pub open spec fn query_value(pairs: Seq<(Seq<char>, Seq<char>)>, key: Seq<char>) -> Option<Seq<char>>
    decreases pairs.len(),
{
    if pairs.len() == 0 {
        None
    } else if pairs.last().0 == key {
        Some(pairs.last().1)
    } else {
        query_value(pairs.drop_last(), key)
    }
}

/// Looks up the last value of `key` among the query pairs.
pub fn query_lookup(pairs: &Vec<(String, String)>, key: &str) -> (r: Option<String>)
    ensures
        match r {
            Some(v) => query_value(crate::weburl::pairs_view(pairs@), key@) == Some(v@),
            None => query_value(crate::weburl::pairs_view(pairs@), key@) is None,
        },
{
    let ghost pv = crate::weburl::pairs_view(pairs@);
    let mut i: usize = pairs.len();
    assert(pv.take(i as int) =~= pv);
    while i > 0
        invariant
            i <= pairs@.len(),
            pv == crate::weburl::pairs_view(pairs@),
            query_value(pv, key@) == query_value(pv.take(i as int), key@),
        decreases i,
    {
        let ghost prefix = pv.take(i as int);
        assert(prefix.drop_last() =~= pv.take(i - 1));
        assert(prefix.last() == pv[i - 1]);
        if crate::text::str_eq(pairs[i - 1].0.as_str(), key) {
            return Some(pairs[i - 1].1.clone());
        }
        i = i - 1;
    }
    None
}

/// What the main window is told about a redirect with these query pairs: the
/// error and its description, or the code and state, or that the response is
/// invalid.
pub open spec fn callback_payload(pairs: Seq<(Seq<char>, Seq<char>)>) -> Seq<char> {
    match query_value(pairs, "error"@) {
        Some(e) => "{\"error\":"@ + json_string_literal(e) + ",\"errorDescription\":"@
            + json_string_literal(
            match query_value(pairs, "error_description"@) {
                Some(d) => d,
                None => Seq::<char>::empty(),
            },
        ) + "}"@,
        None => match (query_value(pairs, "code"@), query_value(pairs, "state"@)) {
            (Some(c), Some(s)) => "{\"code\":"@ + json_string_literal(c) + ",\"state\":"@ + json_string_literal(s)
                + "}"@,
            _ => "{\"error\":\"invalid_response\",\"errorDescription\":\"Missing code or state parameter in callback.\"}"@,
        },
    }
}

/// The result of the login, as JSON text, from the redirect's query pairs.
pub fn callback_payload_json(pairs: &Vec<(String, String)>) -> (r: String)
    ensures
        r@ == callback_payload(crate::weburl::pairs_view(pairs@)),
{
    if let Some(e) = query_lookup(pairs, "error") {
        let mut out = String::from_str("{\"error\":");
        push_json_string(&mut out, e.as_str());
        out.append(",\"errorDescription\":");
        match query_lookup(pairs, "error_description") {
            Some(d) => push_json_string(&mut out, d.as_str()),
            None => {
                let empty = String::new();
                push_json_string(&mut out, empty.as_str());
            },
        }
        out.append("}");
        return out;
    }
    let code = query_lookup(pairs, "code");
    let state = query_lookup(pairs, "state");
    match (code, state) {
        (Some(c), Some(s)) => {
            let mut out = String::from_str("{\"code\":");
            push_json_string(&mut out, c.as_str());
            out.append(",\"state\":");
            push_json_string(&mut out, s.as_str());
            out.append("}");
            out
        },
        _ => String::from_str(
            "{\"error\":\"invalid_response\",\"errorDescription\":\"Missing code or state parameter in callback.\"}",
        ),
    }
}

/// The URL scheme of the OAuth redirect back to the app.
pub open spec fn callback_scheme() -> Seq<char> {
    "vip.elevo.messenger"@
}

/// A navigation of the login window to `href` is the redirect back to the app.
pub open spec fn is_callback(href: Seq<char>) -> bool {
    match url_parse_outcome(href) {
        Ok(u) => u.scheme == callback_scheme(),
        Err(_) => false,
    }
}

/// What the login window does with a navigation.
pub enum OAuthNavigation {
    /// Let the navigation proceed.
    Allow,
    /// Block it, hand `payload_json` to the main window and close the login window.
    Intercept { payload_json: String },
}

/// Whether the redirect has been seen, after a navigation to `href`.
pub open spec fn intercepted_after(intercepted: bool, href: Seq<char>) -> bool {
    intercepted || is_callback(href)
}

/// The state of one login window: whether the redirect back to the app has
/// been intercepted.
pub struct OAuthFlow {
    intercepted: bool,
}

impl View for OAuthFlow {
    type V = bool;

    closed spec fn view(&self) -> bool {
        self.intercepted
    }
}

impl OAuthFlow {
    /// A login window that has not been redirected back yet.
    pub fn new() -> (f: OAuthFlow)
        ensures
            !f@,
    {
        OAuthFlow { intercepted: false }
    }

    /// Handles a navigation of the login window to `href`: the redirect back to
    /// the app (its scheme is the callback scheme) is blocked and turned into
    /// the login result; any other navigation proceeds.
    pub fn on_navigation(&mut self, href: &str) -> (r: OAuthNavigation)
        ensures
            final(self)@ == intercepted_after(old(self)@, href@),
            is_callback(href@) ==> (r matches OAuthNavigation::Intercept { payload_json }
                && payload_json@ == callback_payload(url_parse_outcome(href@)->Ok_0.query)),
            !is_callback(href@) ==> r is Allow,
    {
        match parse_url(href) {
            Ok(u) => {
                if crate::text::str_eq(u.scheme.as_str(), "vip.elevo.messenger") {
                    self.intercepted = true;
                    OAuthNavigation::Intercept { payload_json: callback_payload_json(&u.query) }
                } else {
                    OAuthNavigation::Allow
                }
            },
            Err(_) => OAuthNavigation::Allow,
        }
    }

    /// Whether the closing of the login window is reported to the main window:
    /// only when the redirect was not intercepted, which would otherwise race
    /// with the token exchange.
    pub fn on_destroyed(&self) -> (report: bool)
        ensures
            report == !self@,
    {
        !self.intercepted
    }
}

/// Law: once the redirect has been intercepted it stays intercepted, so the
/// window's closing (reported only while not intercepted) is never reported.
pub proof fn law_intercepted_suppresses_close(intercepted: bool, href: Seq<char>)
    requires
        intercepted || is_callback(href),
    ensures
        intercepted_after(intercepted, href),
{
}

/// Law: a navigation that is not the redirect changes nothing.
pub proof fn law_other_navigation_unchanged(intercepted: bool, href: Seq<char>)
    requires
        !is_callback(href),
    ensures
        intercepted_after(intercepted, href) == intercepted,
{
}

} // verus!
