//! Window and webview labels derived from user-controlled identifiers.

use vstd::prelude::*;
use crate::text::{push_char, str_chars};

verus! {

/// The character that stands for `c` in a label: ASCII letters, digits, `-`
/// and `_` are kept, every other character becomes `_`.
pub open spec fn label_safe_char(c: char) -> char {
    if ('a' <= c && c <= 'z') || ('A' <= c && c <= 'Z') || ('0' <= c && c <= '9') || c == '-'
        || c == '_' {
        c
    } else {
        '_'
    }
}

/// `s` with every character replaced by its label-safe form.
pub open spec fn label_safe(s: Seq<char>) -> Seq<char> {
    s.map_values(|c: char| label_safe_char(c))
}

fn safe_char(c: char) -> (r: char)
    ensures
        r == label_safe_char(c),
{
    if ('a' <= c && c <= 'z') || ('A' <= c && c <= 'Z') || ('0' <= c && c <= '9') || c == '-'
        || c == '_' {
        c
    } else {
        '_'
    }
}

/// Appends the label-safe form of `id` to `out`.
fn push_label_safe(out: &mut String, id: &str)
    ensures
        final(out)@ == old(out)@ + label_safe(id@),
{
    let chars = str_chars(id);
    let ghost start = out@;
    let mut i: usize = 0;
    while i < chars.len()
        invariant
            i <= chars.len(),
            chars@ == id@,
            out@ == start + label_safe(id@).take(i as int),
        decreases chars.len() - i,
    {
        let c = safe_char(chars[i]);
        push_char(out, c);
        i = i + 1;
        assert(label_safe(id@).take(i as int) =~= label_safe(id@).take((i - 1) as int).push(c));
    }
    assert(label_safe(id@).take(i as int) =~= label_safe(id@));
}

/// A stable, filesystem- and label-safe window label for the workspace
/// explorer of `workspace_id`.
pub fn bridge_explorer_label(workspace_id: &str) -> (label: String)
    ensures
        label@ == "bridge-explorer-"@ + label_safe(workspace_id@),
{
    let mut out = String::from_str("bridge-explorer-");
    push_label_safe(&mut out, workspace_id);
    out
}

/// A stable, filesystem- and label-safe window label for the task board of
/// `workspace_id`.
pub fn task_board_label(workspace_id: &str) -> (label: String)
    ensures
        label@ == "task-board-"@ + label_safe(workspace_id@),
{
    let mut out = String::from_str("task-board-");
    push_label_safe(&mut out, workspace_id);
    out
}

/// The label of the title-bar webview inside the side panel window `label`.
pub fn side_panel_titlebar_label(label: &str) -> (r: String)
    ensures
        r@ == label@ + "--titlebar"@,
{
    let mut out = String::from_str(label);
    out.append("--titlebar");
    out
}

/// The label of the content webview inside the side panel window `label`.
pub fn side_panel_content_label(label: &str) -> (r: String)
    ensures
        r@ == label@ + "--content"@,
{
    let mut out = String::from_str(label);
    out.append("--content");
    out
}

/// A character that may stand in a label as it is.
pub open spec fn is_label_safe_char(c: char) -> bool {
    label_safe_char(c) == c
}

/// Law: a derived label is made of safe characters only, and making a safe
/// string safe again leaves it as it is.
pub proof fn law_label_safe_is_safe(s: Seq<char>)
    ensures
        forall|i: int| 0 <= i < label_safe(s).len() ==> is_label_safe_char(#[trigger] label_safe(s)[i]),
        label_safe(label_safe(s)) == label_safe(s),
{
    assert(label_safe(label_safe(s)) =~= label_safe(s));
}

/// Law: two workspaces get the same explorer (or task board) window exactly
/// when their ids agree once made safe, so reopening a workspace finds its
/// window again.
pub proof fn law_workspace_label_same_window(a: Seq<char>, b: Seq<char>)
    ensures
        ("bridge-explorer-"@ + label_safe(a) == "bridge-explorer-"@ + label_safe(b)) <==> label_safe(a) == label_safe(b),
        ("task-board-"@ + label_safe(a) == "task-board-"@ + label_safe(b)) <==> label_safe(a) == label_safe(b),
{
    let p = "bridge-explorer-"@;
    let q = "task-board-"@;
    if p + label_safe(a) == p + label_safe(b) {
        assert(label_safe(a) =~= (p + label_safe(a)).skip(p.len() as int));
        assert(label_safe(b) =~= (p + label_safe(b)).skip(p.len() as int));
    }
    if q + label_safe(a) == q + label_safe(b) {
        assert(label_safe(a) =~= (q + label_safe(a)).skip(q.len() as int));
        assert(label_safe(b) =~= (q + label_safe(b)).skip(q.len() as int));
    }
}

/// Law: an explorer window and a task board window never share a label.
pub proof fn law_explorer_and_board_labels_differ(a: Seq<char>, b: Seq<char>)
    ensures
        "bridge-explorer-"@ + label_safe(a) != "task-board-"@ + label_safe(b),
{
    reveal_strlit("bridge-explorer-");
    reveal_strlit("task-board-");
    assert(("bridge-explorer-"@ + label_safe(a))[0] == 'b');
    assert(("task-board-"@ + label_safe(b))[0] == 't');
}

/// Law: the title-bar webview of one side panel is never the content webview
/// of another (their labels end differently).
pub proof fn law_panel_children_differ(a: Seq<char>, b: Seq<char>)
    ensures
        a + "--titlebar"@ != b + "--content"@,
{
    reveal_strlit("--titlebar");
    reveal_strlit("--content");
    let x = a + "--titlebar"@;
    let y = b + "--content"@;
    if x == y {
        assert(x[x.len() - 1] == 'r');
        assert(y[y.len() - 1] == 't');
    }
}

/// An ASCII letter, an ASCII digit, `-` or `_`, by code point.
pub open spec fn ascii_word_char(c: char) -> bool {
    let n = c as int;
    (48 <= n && n <= 57) || (65 <= n && n <= 90) || (97 <= n && n <= 122) || n == 45 || n == 95
}

/// Law: a label keeps each ASCII letter, digit, `-` and `_` of the id where it
/// stands, and puts `_` for every other character; so an id made only of
/// such characters is its own safe form, and two such ids never share a label.
pub proof fn law_label_keeps_word_chars(s: Seq<char>, t: Seq<char>)
    ensures
        label_safe(s).len() == s.len(),
        forall|i: int| 0 <= i < s.len() ==> (ascii_word_char(s[i]) ==> #[trigger] label_safe(s)[i] == s[i]),
        forall|i: int| 0 <= i < s.len() ==> (!ascii_word_char(s[i]) ==> #[trigger] label_safe(s)[i] == '_'),
        (forall|i: int| 0 <= i < s.len() ==> ascii_word_char(#[trigger] s[i])) ==> label_safe(s) == s,
        (forall|i: int| 0 <= i < s.len() ==> ascii_word_char(#[trigger] s[i]))
            && (forall|i: int| 0 <= i < t.len() ==> ascii_word_char(#[trigger] t[i]))
            && s != t ==> "bridge-explorer-"@ + label_safe(s) != "bridge-explorer-"@ + label_safe(t),
{
    assert forall|i: int| 0 <= i < s.len() implies (ascii_word_char(s[i]) ==> #[trigger] label_safe(s)[i] == s[i])
        && (!ascii_word_char(s[i]) ==> label_safe(s)[i] == '_') by {
        let c = s[i];
        assert('a' as int == 97 && 'z' as int == 122 && 'A' as int == 65 && 'Z' as int == 90);
        assert('0' as int == 48 && '9' as int == 57 && '-' as int == 45 && '_' as int == 95);
        assert(label_safe(s)[i] == label_safe_char(c));
    }
    if forall|i: int| 0 <= i < s.len() ==> ascii_word_char(#[trigger] s[i]) {
        assert(label_safe(s) =~= s);
    }
    if (forall|i: int| 0 <= i < s.len() ==> ascii_word_char(#[trigger] s[i]))
        && (forall|i: int| 0 <= i < t.len() ==> ascii_word_char(#[trigger] t[i])) && s != t {
        assert(label_safe(s) =~= s);
        assert forall|i: int| 0 <= i < t.len() implies #[trigger] label_safe(t)[i] == t[i] by {
            assert('a' as int == 97 && 'z' as int == 122 && 'A' as int == 65 && 'Z' as int == 90);
            assert('0' as int == 48 && '9' as int == 57 && '-' as int == 45 && '_' as int == 95);
        }
        assert(label_safe(t) =~= t);
        law_workspace_label_same_window(s, t);
    }
}

} // verus!
