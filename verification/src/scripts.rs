//! The JavaScript that the shell injects into webviews, and the JSON texts
//! that it sends to them.

use vstd::prelude::*;
use crate::json::{json_string_literal, lemma_literal_keeps_out, occurs_in, plain_text, push_json_string};
use crate::text::{push_char, str_chars};

verus! {

/// `t` begins with the non-empty `p`.
pub open spec fn begins_with(t: Seq<char>, p: Seq<char>) -> bool {
    0 < p.len() <= t.len() && t.take(p.len() as int) == p
}

/// `t` with the placeholders `p1`, `p2`, `p3` filled in by `v1`, `v2`, `v3` in
/// one pass from left to right: where a placeholder begins (the first of the
/// three that does), its value is emitted and the placeholder skipped; any
/// other character is copied. An emitted value is never scanned again.
pub open spec fn filled(
    t: Seq<char>,
    p1: Seq<char>,
    v1: Seq<char>,
    p2: Seq<char>,
    v2: Seq<char>,
    p3: Seq<char>,
    v3: Seq<char>,
) -> Seq<char>
    decreases t.len(),
{
    if t.len() == 0 {
        t
    } else if begins_with(t, p1) {
        v1 + filled(t.skip(p1.len() as int), p1, v1, p2, v2, p3, v3)
    } else if begins_with(t, p2) {
        v2 + filled(t.skip(p2.len() as int), p1, v1, p2, v2, p3, v3)
    } else if begins_with(t, p3) {
        v3 + filled(t.skip(p3.len() as int), p1, v1, p2, v2, p3, v3)
    } else {
        seq![t[0]] + filled(t.skip(1), p1, v1, p2, v2, p3, v3)
    }
}

fn matches_at(c: &Vec<char>, p: &Vec<char>, i: usize) -> (res: bool)
    requires
        i + p@.len() <= c@.len(),
    ensures
        res == (c@.skip(i as int).take(p@.len() as int) == p@),
{
    let n: usize = c.len();
    let mut j: usize = 0;
    while j < p.len()
        invariant
            i + p@.len() <= c@.len(),
            n == c@.len(),
            j <= p@.len(),
            forall|k: int| 0 <= k < j ==> c@[i + k] == p@[k],
        decreases p.len() - j,
    {
        if c[i + j] != p[j] {
            assert(c@.skip(i as int).take(p@.len() as int)[j as int] != p@[j as int]);
            return false;
        }
        j = j + 1;
    }
    assert(c@.skip(i as int).take(p@.len() as int) =~= p@);
    true
}

fn begins_at(c: &Vec<char>, p: &Vec<char>, i: usize) -> (res: bool)
    requires
        i <= c@.len(),
    ensures
        res == begins_with(c@.skip(i as int), p@),
{
    p.len() > 0 && p.len() <= c.len() - i && matches_at(c, p, i)
}

/// Fills the placeholders of `template` as `filled` says.
fn fill_placeholders(template: &str, p1: &str, v1: &str, p2: &str, v2: &str, p3: &str, v3: &str) -> (r: String)
    ensures
        r@ == filled(template@, p1@, v1@, p2@, v2@, p3@, v3@),
{
    let c = str_chars(template);
    let q1 = str_chars(p1);
    let q2 = str_chars(p2);
    let q3 = str_chars(p3);
    let ghost f = |t: Seq<char>| filled(t, p1@, v1@, p2@, v2@, p3@, v3@);
    let mut out = String::new();
    let mut i: usize = 0;
    assert(c@.skip(0) =~= c@);
    while i < c.len()
        invariant
            c@ == template@,
            q1@ == p1@,
            q2@ == p2@,
            q3@ == p3@,
            i <= c@.len(),
            out@ + filled(c@.skip(i as int), p1@, v1@, p2@, v2@, p3@, v3@)
                == filled(template@, p1@, v1@, p2@, v2@, p3@, v3@),
        decreases c.len() - i,
    {
        let ghost rest = c@.skip(i as int);
        let ghost before = out@;
        if begins_at(&c, &q1, i) {
            out.append(v1);
            proof {
                assert(rest.skip(p1@.len() as int) =~= c@.skip(i + p1@.len()));
                assert(before + (v1@ + f(c@.skip(i + p1@.len()))) =~= out@ + f(c@.skip(i + p1@.len())));
            }
            i = i + q1.len();
        } else if begins_at(&c, &q2, i) {
            out.append(v2);
            proof {
                assert(rest.skip(p2@.len() as int) =~= c@.skip(i + p2@.len()));
                assert(before + (v2@ + f(c@.skip(i + p2@.len()))) =~= out@ + f(c@.skip(i + p2@.len())));
            }
            i = i + q2.len();
        } else if begins_at(&c, &q3, i) {
            out.append(v3);
            proof {
                assert(rest.skip(p3@.len() as int) =~= c@.skip(i + p3@.len()));
                assert(before + (v3@ + f(c@.skip(i + p3@.len()))) =~= out@ + f(c@.skip(i + p3@.len())));
            }
            i = i + q3.len();
        } else {
            push_char(&mut out, c[i]);
            proof {
                assert(rest.skip(1) =~= c@.skip(i + 1));
                assert(rest[0] == c@[i as int]);
                assert(before + (seq![c@[i as int]] + f(c@.skip(i + 1))) =~= out@ + f(c@.skip(i + 1)));
            }
            i = i + 1;
        }
    }
    assert(c@.skip(i as int) =~= Seq::<char>::empty());
    assert(out@ + Seq::<char>::empty() =~= out@);
    out
}

/// The initialization script of a child webview: `template` with each of the
/// placeholders `__WEBVIEW_LABEL__`, `__ROOM_ID__` and `__THEME__` replaced by
/// the JSON literal of its own value (the label, the room id, the theme).
pub open spec fn sdk_script(template: Seq<char>, label: Seq<char>, room_id: Seq<char>, theme: Seq<char>) -> Seq<char> {
    filled(
        template,
        "__WEBVIEW_LABEL__"@,
        json_string_literal(label),
        "__ROOM_ID__"@,
        json_string_literal(room_id),
        "__THEME__"@,
        json_string_literal(theme),
    )
}

/// JS injected into every page of a child webview before any page script
/// runs: the SDK `template` with its placeholders filled in.
pub fn sdk_initialization_script(template: &str, label: &str, room_id: &str, theme: &str) -> (r: String)
    ensures
        r@ == sdk_script(template@, label@, room_id@, theme@),
{
    let label_json = crate::json::json_quote(label);
    let room_json = crate::json::json_quote(room_id);
    let theme_json = crate::json::json_quote(theme);
    fill_placeholders(
        template,
        "__WEBVIEW_LABEL__",
        label_json.as_str(),
        "__ROOM_ID__",
        room_json.as_str(),
        "__THEME__",
        theme_json.as_str(),
    )
}

/// `p` holds no double quote.
pub open spec fn free_of_quotes(p: Seq<char>) -> bool {
    forall|i: int| 0 <= i < p.len() ==> p[i] != '"'
}

/// `v` begins and ends with a double quote, as a JSON string literal does.
pub open spec fn quoted(v: Seq<char>) -> bool {
    v.len() > 0 && v[0] == '"' && v.last() == '"'
}

/// A stretch of a filled text that holds no double quote, taken from its
/// start, is the same stretch of the template: every value begins with one.
proof fn lemma_filled_unquoted_prefix(
    t: Seq<char>,
    p1: Seq<char>,
    v1: Seq<char>,
    p2: Seq<char>,
    v2: Seq<char>,
    p3: Seq<char>,
    v3: Seq<char>,
    n: int,
)
    requires
        quoted(v1),
        quoted(v2),
        quoted(v3),
        0 <= n <= filled(t, p1, v1, p2, v2, p3, v3).len(),
        forall|i: int| 0 <= i < n ==> filled(t, p1, v1, p2, v2, p3, v3)[i] != '"',
    ensures
        n <= t.len(),
        filled(t, p1, v1, p2, v2, p3, v3).take(n) == t.take(n),
    decreases t.len(),
{
    let f = filled(t, p1, v1, p2, v2, p3, v3);
    if n == 0 {
        assert(f.take(0) =~= t.take(0));
    } else if t.len() == 0 {
    } else if begins_with(t, p1) {
        assert(f[0] == v1[0]);
    } else if begins_with(t, p2) {
        assert(f[0] == v2[0]);
    } else if begins_with(t, p3) {
        assert(f[0] == v3[0]);
    } else {
        let r = t.skip(1);
        let fr = filled(r, p1, v1, p2, v2, p3, v3);
        assert(f == seq![t[0]] + fr);
        assert forall|i: int| 0 <= i < n - 1 implies fr[i] != '"' by {
            assert(fr[i] == f[i + 1]);
        }
        lemma_filled_unquoted_prefix(r, p1, v1, p2, v2, p3, v3, n - 1);
        assert(f.take(n) =~= seq![t[0]] + fr.take(n - 1));
        assert(t.take(n) =~= seq![t[0]] + r.take(n - 1));
    }
}

/// A quoted value followed by a text: neither holds `p`, and `p` holds no
/// quote, so no occurrence can reach across the closing quote either.
proof fn lemma_concat_avoids(v: Seq<char>, r: Seq<char>, p: Seq<char>)
    requires
        p.len() > 0,
        free_of_quotes(p),
        quoted(v),
        !occurs_in(v, p),
        !occurs_in(r, p),
    ensures
        !occurs_in(v + r, p),
{
    let s = v + r;
    let m = p.len() as int;
    if occurs_in(s, p) {
        let i = choose|i: int| 0 <= i && i + p.len() <= s.len() && #[trigger] s.subrange(i, i + p.len()) == p;
        if i + m <= v.len() {
            assert(v.subrange(i, i + m) =~= s.subrange(i, i + m));
        } else if i >= v.len() {
            let j = i - v.len();
            assert(r.subrange(j, j + m) =~= s.subrange(i, i + m));
        } else {
            let k = v.len() - 1 - i;
            assert(s.subrange(i, i + m)[k] == s[v.len() - 1]);
            assert(p[k] == '"');
        }
    }
}

/// Filling never makes a placeholder: when no value holds the placeholder
/// `p`, neither does the filled text.
proof fn lemma_filled_avoids(
    t: Seq<char>,
    p1: Seq<char>,
    v1: Seq<char>,
    p2: Seq<char>,
    v2: Seq<char>,
    p3: Seq<char>,
    v3: Seq<char>,
    p: Seq<char>,
)
    requires
        p.len() > 0,
        free_of_quotes(p),
        p == p1 || p == p2 || p == p3,
        quoted(v1),
        quoted(v2),
        quoted(v3),
        !occurs_in(v1, p),
        !occurs_in(v2, p),
        !occurs_in(v3, p),
    ensures
        !occurs_in(filled(t, p1, v1, p2, v2, p3, v3), p),
    decreases t.len(),
{
    let f = filled(t, p1, v1, p2, v2, p3, v3);
    let m = p.len() as int;
    if t.len() == 0 {
    } else if begins_with(t, p1) {
        let r = t.skip(p1.len() as int);
        lemma_filled_avoids(r, p1, v1, p2, v2, p3, v3, p);
        lemma_concat_avoids(v1, filled(r, p1, v1, p2, v2, p3, v3), p);
    } else if begins_with(t, p2) {
        let r = t.skip(p2.len() as int);
        lemma_filled_avoids(r, p1, v1, p2, v2, p3, v3, p);
        lemma_concat_avoids(v2, filled(r, p1, v1, p2, v2, p3, v3), p);
    } else if begins_with(t, p3) {
        let r = t.skip(p3.len() as int);
        lemma_filled_avoids(r, p1, v1, p2, v2, p3, v3, p);
        lemma_concat_avoids(v3, filled(r, p1, v1, p2, v2, p3, v3), p);
    } else {
        let r = t.skip(1);
        let fr = filled(r, p1, v1, p2, v2, p3, v3);
        lemma_filled_avoids(r, p1, v1, p2, v2, p3, v3, p);
        assert(f == seq![t[0]] + fr);
        if occurs_in(f, p) {
            let i = choose|i: int| 0 <= i && i + p.len() <= f.len() && #[trigger] f.subrange(i, i + p.len()) == p;
            if i >= 1 {
                assert(fr.subrange(i - 1, i - 1 + m) =~= f.subrange(i, i + m));
            } else {
                assert forall|j: int| 0 <= j < m - 1 implies fr[j] != '"' by {
                    assert(fr[j] == f.subrange(0, m)[j + 1]);
                }
                lemma_filled_unquoted_prefix(r, p1, v1, p2, v2, p3, v3, m - 1);
                assert(t.take(m) =~= seq![t[0]] + r.take(m - 1));
                assert(f.subrange(0, m) =~= seq![t[0]] + fr.take(m - 1));
                assert(begins_with(t, p));
            }
        }
    }
}

/// None of the three placeholders of the SDK template occurs in `s`.
pub open spec fn holds_no_placeholder(s: Seq<char>) -> bool {
    &&& !occurs_in(s, "__WEBVIEW_LABEL__"@)
    &&& !occurs_in(s, "__ROOM_ID__"@)
    &&& !occurs_in(s, "__THEME__"@)
}

/// Law: when neither the label, nor the room id, nor the theme holds a
/// placeholder, the initialization script holds none either: each
/// placeholder is replaced by the JSON literal of its own value, and what a
/// value brings in is never taken for a placeholder.
pub proof fn law_sdk_script_leaves_no_placeholder(
    template: Seq<char>,
    label: Seq<char>,
    room_id: Seq<char>,
    theme: Seq<char>,
)
    requires
        holds_no_placeholder(label),
        holds_no_placeholder(room_id),
        holds_no_placeholder(theme),
    ensures
        holds_no_placeholder(sdk_script(template, label, room_id, theme)),
{
    reveal_strlit("__WEBVIEW_LABEL__");
    reveal_strlit("__ROOM_ID__");
    reveal_strlit("__THEME__");
    let p1 = "__WEBVIEW_LABEL__"@;
    let p2 = "__ROOM_ID__"@;
    let p3 = "__THEME__"@;
    assert(plain_text(p1) && free_of_quotes(p1));
    assert(plain_text(p2) && free_of_quotes(p2));
    assert(plain_text(p3) && free_of_quotes(p3));
    let v1 = json_string_literal(label);
    let v2 = json_string_literal(room_id);
    let v3 = json_string_literal(theme);
    assert(quoted(v1) && quoted(v2) && quoted(v3));
    lemma_literal_keeps_out(label, p1);
    lemma_literal_keeps_out(label, p2);
    lemma_literal_keeps_out(label, p3);
    lemma_literal_keeps_out(room_id, p1);
    lemma_literal_keeps_out(room_id, p2);
    lemma_literal_keeps_out(room_id, p3);
    lemma_literal_keeps_out(theme, p1);
    lemma_literal_keeps_out(theme, p2);
    lemma_literal_keeps_out(theme, p3);
    lemma_filled_avoids(template, p1, v1, p2, v2, p3, v3, p1);
    lemma_filled_avoids(template, p1, v1, p2, v2, p3, v3, p2);
    lemma_filled_avoids(template, p1, v1, p2, v2, p3, v3, p3);
}

fn state_script(head: &str, mid: &str, theme: &str, payload_json: &str) -> (r: String)
    ensures
        r@ == head@ + json_string_literal(theme@) + mid@ + payload_json@ + ";\n})();"@,
{
    let mut out = String::from_str(head);
    push_json_string(&mut out, theme);
    out.append(mid);
    out.append(payload_json);
    out.append(";\n})();");
    out
}

/// Initialization script of the media preview window: the initial theme and
/// the initial payload (given as JSON text).
pub fn preview_initialization_script(theme: &str, payload_json: &str) -> (r: String)
    ensures
        r@ == "(function () {\n  window.__ElevoPreview_initialTheme__ = "@ + json_string_literal(theme@)
            + ";\n  window.__ElevoPreview_initialPayload__ = "@ + payload_json@ + ";\n})();"@,
{
    state_script(
        "(function () {\n  window.__ElevoPreview_initialTheme__ = ",
        ";\n  window.__ElevoPreview_initialPayload__ = ",
        theme,
        payload_json,
    )
}

/// Initialization script of the code view window.
pub fn code_view_initialization_script(theme: &str, payload_json: &str) -> (r: String)
    ensures
        r@ == "(function () {\n  window.__ElevoCodeView_initialTheme__ = "@ + json_string_literal(theme@)
            + ";\n  window.__ElevoCodeView_initialPayload__ = "@ + payload_json@ + ";\n})();"@,
{
    state_script(
        "(function () {\n  window.__ElevoCodeView_initialTheme__ = ",
        ";\n  window.__ElevoCodeView_initialPayload__ = ",
        theme,
        payload_json,
    )
}

/// Initialization script of a workspace explorer window.
pub fn bridge_explorer_initialization_script(theme: &str, payload_json: &str) -> (r: String)
    ensures
        r@ == "(function () {\n  window.__ElevoBridgeExplorer_initialTheme__ = "@ + json_string_literal(theme@)
            + ";\n  window.__ElevoBridgeExplorer_initialPayload__ = "@ + payload_json@ + ";\n})();"@,
{
    state_script(
        "(function () {\n  window.__ElevoBridgeExplorer_initialTheme__ = ",
        ";\n  window.__ElevoBridgeExplorer_initialPayload__ = ",
        theme,
        payload_json,
    )
}

/// Initialization script of a task board window.
pub fn task_board_initialization_script(theme: &str, payload_json: &str) -> (r: String)
    ensures
        r@ == "(function () {\n  window.__ElevoTaskBoard_initialTheme__ = "@ + json_string_literal(theme@)
            + ";\n  window.__ElevoTaskBoard_initialPayload__ = "@ + payload_json@ + ";\n})();"@,
{
    state_script(
        "(function () {\n  window.__ElevoTaskBoard_initialTheme__ = ",
        ";\n  window.__ElevoTaskBoard_initialPayload__ = ",
        theme,
        payload_json,
    )
}

/// The script, before the label, that tracks in-page history of a side panel.
pub open spec fn history_script_head() -> Seq<char> {
    r#"(function () {
  if (window.__ElevoWebviewHistoryInstalled__) return;
  window.__ElevoWebviewHistoryInstalled__ = true;
  const LABEL = "#@
}

/// The script, after the label, that tracks in-page history of a side panel.
pub open spec fn history_script_tail() -> Seq<char> {
    r#";
  const tauriInternals = window.__TAURI_INTERNALS__;
  const tauriInvoke = (cmd, payload) => {
    if (!tauriInternals) return;
    const callback = tauriInternals.transformCallback(function () {}, true);
    const error = tauriInternals.transformCallback(function () {}, true);
    tauriInternals.postMessage({ cmd, callback, error, payload });
  };
  const currentTitle = () => {
    try {
      return window.location.protocol === "https:" && !window.location.port
        ? window.location.hostname
        : window.location.origin;
    } catch (_) {
      return "";
    }
  };
  const stateKey = "__elevoWebviewHistoryIndex";
  let index = Number(history.state && history.state[stateKey]);
  if (!Number.isFinite(index)) {
    index = Number(sessionStorage.getItem("__elevo_history_index__") || "0");
    try {
      history.replaceState(Object.assign({}, history.state, { [stateKey]: index }), "", location.href);
    } catch (_) {}
  }
  let maxIndex = Number(sessionStorage.getItem("__elevo_history_max_index__") || String(index));
  maxIndex = Math.max(maxIndex, index);
  const report = () => {
    try {
      tauriInvoke("webview_titlebar_update_state", {
        label: LABEL,
        title: currentTitle(),
        url: window.location.href,
        canGoBack: index > 0,
        canGoForward: index < maxIndex
      });
    } catch (_) {}
  };
  const persist = () => {
    sessionStorage.setItem("__elevo_history_index__", String(index));
    sessionStorage.setItem("__elevo_history_max_index__", String(maxIndex));
  };
  const push = () => {
    index += 1;
    maxIndex = index;
    try {
      history.replaceState(Object.assign({}, history.state, { [stateKey]: index }), "", location.href);
    } catch (_) {}
    persist();
    window.setTimeout(report, 0);
  };
  const originalPushState = history.pushState;
  const originalReplaceState = history.replaceState;
  history.pushState = function () {
    const result = originalPushState.apply(this, arguments);
    push();
    return result;
  };
  history.replaceState = function () {
    if (arguments.length > 0) {
      arguments[0] = Object.assign({}, arguments[0], { [stateKey]: index });
    }
    const result = originalReplaceState.apply(this, arguments);
    window.setTimeout(report, 0);
    return result;
  };
  window.addEventListener("popstate", (event) => {
    const nextIndex = Number(event.state && event.state[stateKey]);
    index = Number.isFinite(nextIndex) ? nextIndex : Math.max(0, index - 1);
    maxIndex = Math.max(maxIndex, index);
    persist();
    window.setTimeout(report, 0);
  });
  window.addEventListener("pageshow", report);
  window.setTimeout(report, 0);
})();"#@
}

/// Script that keeps a back/forward index for the side panel `label` and
/// reports it, with the page's title and address, to the title bar.
pub fn history_initialization_script(label: &str) -> (r: String)
    ensures
        r@ == history_script_head() + json_string_literal(label@) + history_script_tail(),
{
    let mut out = String::from_str(r#"(function () {
  if (window.__ElevoWebviewHistoryInstalled__) return;
  window.__ElevoWebviewHistoryInstalled__ = true;
  const LABEL = "#);
    push_json_string(&mut out, label);
    out.append(r#";
  const tauriInternals = window.__TAURI_INTERNALS__;
  const tauriInvoke = (cmd, payload) => {
    if (!tauriInternals) return;
    const callback = tauriInternals.transformCallback(function () {}, true);
    const error = tauriInternals.transformCallback(function () {}, true);
    tauriInternals.postMessage({ cmd, callback, error, payload });
  };
  const currentTitle = () => {
    try {
      return window.location.protocol === "https:" && !window.location.port
        ? window.location.hostname
        : window.location.origin;
    } catch (_) {
      return "";
    }
  };
  const stateKey = "__elevoWebviewHistoryIndex";
  let index = Number(history.state && history.state[stateKey]);
  if (!Number.isFinite(index)) {
    index = Number(sessionStorage.getItem("__elevo_history_index__") || "0");
    try {
      history.replaceState(Object.assign({}, history.state, { [stateKey]: index }), "", location.href);
    } catch (_) {}
  }
  let maxIndex = Number(sessionStorage.getItem("__elevo_history_max_index__") || String(index));
  maxIndex = Math.max(maxIndex, index);
  const report = () => {
    try {
      tauriInvoke("webview_titlebar_update_state", {
        label: LABEL,
        title: currentTitle(),
        url: window.location.href,
        canGoBack: index > 0,
        canGoForward: index < maxIndex
      });
    } catch (_) {}
  };
  const persist = () => {
    sessionStorage.setItem("__elevo_history_index__", String(index));
    sessionStorage.setItem("__elevo_history_max_index__", String(maxIndex));
  };
  const push = () => {
    index += 1;
    maxIndex = index;
    try {
      history.replaceState(Object.assign({}, history.state, { [stateKey]: index }), "", location.href);
    } catch (_) {}
    persist();
    window.setTimeout(report, 0);
  };
  const originalPushState = history.pushState;
  const originalReplaceState = history.replaceState;
  history.pushState = function () {
    const result = originalPushState.apply(this, arguments);
    push();
    return result;
  };
  history.replaceState = function () {
    if (arguments.length > 0) {
      arguments[0] = Object.assign({}, arguments[0], { [stateKey]: index });
    }
    const result = originalReplaceState.apply(this, arguments);
    window.setTimeout(report, 0);
    return result;
  };
  window.addEventListener("popstate", (event) => {
    const nextIndex = Number(event.state && event.state[stateKey]);
    index = Number.isFinite(nextIndex) ? nextIndex : Math.max(0, index - 1);
    maxIndex = Math.max(maxIndex, index);
    persist();
    window.setTimeout(report, 0);
  });
  window.addEventListener("pageshow", report);
  window.setTimeout(report, 0);
})();"#);
    out
}

/// The JSON text of a boolean.
pub open spec fn json_bool(b: bool) -> Seq<char> {
    if b { "true"@ } else { "false"@ }
}

fn push_json_bool(out: &mut String, b: bool)
    ensures
        final(out)@ == old(out)@ + json_bool(b),
{
    if b {
        out.append("true");
    } else {
        out.append("false");
    }
}

/// The JSON object describing a side panel's title bar, keys in the order
/// serde_json writes them.
pub open spec fn titlebar_state(label: Seq<char>, title: Seq<char>, url: Seq<char>, back: bool, forward: bool) -> Seq<char> {
    "{\"canGoBack\":"@ + json_bool(back) + ",\"canGoForward\":"@ + json_bool(forward) + ",\"label\":"@
        + json_string_literal(label) + ",\"title\":"@ + json_string_literal(title) + ",\"url\":"@
        + json_string_literal(url) + "}"@
}

/// The title bar state of the side panel `label` as JSON text.
pub fn titlebar_state_json(label: &str, title: &str, url: &str, can_go_back: bool, can_go_forward: bool) -> (r: String)
    ensures
        r@ == titlebar_state(label@, title@, url@, can_go_back, can_go_forward),
{
    let mut out = String::from_str("{\"canGoBack\":");
    push_json_bool(&mut out, can_go_back);
    out.append(",\"canGoForward\":");
    push_json_bool(&mut out, can_go_forward);
    out.append(",\"label\":");
    push_json_string(&mut out, label);
    out.append(",\"title\":");
    push_json_string(&mut out, title);
    out.append(",\"url\":");
    push_json_string(&mut out, url);
    out.append("}");
    out
}

/// Initialization script of a side panel's title bar: its first state, with
/// no history in either direction.
pub fn titlebar_initialization_script(label: &str, title: &str, url: &str) -> (r: String)
    ensures
        r@ == "(function () {\n  window.__ElevoWebviewTitlebar_initialState__ = "@
            + titlebar_state(label@, title@, url@, false, false) + ";\n})();"@,
{
    let state = titlebar_state_json(label, title, url, false, false);
    let mut out = String::from_str("(function () {\n  window.__ElevoWebviewTitlebar_initialState__ = ");
    out.append(state.as_str());
    out.append(";\n})();");
    out
}

/// Script that hands a new state to a side panel's title bar.
pub fn titlebar_receive_script(state_json: &str) -> (r: String)
    ensures
        r@ == "window.__ElevoWebviewTitlebar_receive__ && window.__ElevoWebviewTitlebar_receive__("@
            + state_json@ + ")"@,
{
    let mut out = String::from_str("window.__ElevoWebviewTitlebar_receive__ && window.__ElevoWebviewTitlebar_receive__(");
    out.append(state_json);
    out.append(")");
    out
}

/// Script that hands a new payload (JSON text) to the open media preview.
pub fn preview_receive_script(payload_json: &str) -> (r: String)
    ensures
        r@ == "window.__ElevoPreview_receive__ && window.__ElevoPreview_receive__("@ + payload_json@ + ")"@,
{
    let mut out = String::from_str("window.__ElevoPreview_receive__ && window.__ElevoPreview_receive__(");
    out.append(payload_json);
    out.append(")");
    out
}

/// Script that hands a new payload (JSON text) to the open code view.
pub fn code_view_receive_script(payload_json: &str) -> (r: String)
    ensures
        r@ == "window.__ElevoCodeView_receive__ && window.__ElevoCodeView_receive__("@ + payload_json@ + ")"@,
{
    let mut out = String::from_str("window.__ElevoCodeView_receive__ && window.__ElevoCodeView_receive__(");
    out.append(payload_json);
    out.append(")");
    out
}

/// The call of the SDK's receive hook with a channel and data (JSON text).
pub open spec fn sdk_receive(channel: Seq<char>, data_json: Seq<char>) -> Seq<char> {
    "window.__ElevoMessengerSDK_receive__ && window.__ElevoMessengerSDK_receive__("@
        + json_string_literal(channel) + ", "@ + data_json + ")"@
}

/// Script that delivers a message on `channel` to a child webview's SDK.
pub fn sdk_receive_script(channel: &str, data_json: &str) -> (r: String)
    ensures
        r@ == sdk_receive(channel@, data_json@),
{
    let mut out = String::from_str("window.__ElevoMessengerSDK_receive__ && window.__ElevoMessengerSDK_receive__(");
    push_json_string(&mut out, channel);
    out.append(", ");
    out.append(data_json);
    out.append(")");
    out
}

/// Script that sends a content webview to `href` unless it is already there.
pub fn navigate_script(href: &str) -> (r: String)
    ensures
        r@ == "if (window.location.href !== "@ + json_string_literal(href@) + ") window.location.assign("@
            + json_string_literal(href@) + ");"@,
{
    let mut out = String::from_str("if (window.location.href !== ");
    push_json_string(&mut out, href);
    out.append(") window.location.assign(");
    push_json_string(&mut out, href);
    out.append(");");
    out
}

/// The JSON object `{"label": ...}` that announces a webview.
pub fn label_event_json(label: &str) -> (r: String)
    ensures
        r@ == "{\"label\":"@ + json_string_literal(label@) + "}"@,
{
    let mut out = String::from_str("{\"label\":");
    push_json_string(&mut out, label);
    out.append("}");
    out
}

/// The JSON object relayed to the main window for a message from a child
/// webview, keys in the order serde_json writes them.
pub fn sdk_message_json(source_label: &str, room_id: &str, channel: &str, data_json: &str) -> (r: String)
    ensures
        r@ == "{\"channel\":"@ + json_string_literal(channel@) + ",\"data\":"@ + data_json@ + ",\"roomId\":"@
            + json_string_literal(room_id@) + ",\"source\":"@ + json_string_literal(source_label@) + "}"@,
{
    let mut out = String::from_str("{\"channel\":");
    push_json_string(&mut out, channel);
    out.append(",\"data\":");
    out.append(data_json);
    out.append(",\"roomId\":");
    push_json_string(&mut out, room_id);
    out.append(",\"source\":");
    push_json_string(&mut out, source_label);
    out.append("}");
    out
}

} // verus!
