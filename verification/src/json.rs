//! JSON string literals, as serde_json writes them.

use vstd::prelude::*;

verus! {

/// The lower-case hexadecimal digit of `d`, for `0 <= d < 16`.
pub open spec fn hex_digit(d: int) -> char {
    if d < 10 {
        (48 + d) as char
    } else {
        (87 + d) as char
    }
}

/// What one character becomes inside a JSON string literal: the double quote,
/// the backslash and the control characters below U+0020 are escaped (the
/// five with a short form as `\b`, `\t`, `\n`, `\f`, `\r`, the others as
/// `\u00XX` in lower-case hex); every other character stands for itself.
pub open spec fn json_escape_char(c: char) -> Seq<char> {
    if c == '"' {
        seq!['\\', '"']
    } else if c == '\\' {
        seq!['\\', '\\']
    } else if c == '\u{8}' {
        seq!['\\', 'b']
    } else if c == '\t' {
        seq!['\\', 't']
    } else if c == '\n' {
        seq!['\\', 'n']
    } else if c == '\u{c}' {
        seq!['\\', 'f']
    } else if c == '\r' {
        seq!['\\', 'r']
    } else if (c as int) < 0x20 {
        seq!['\\', 'u', '0', '0', hex_digit(c as int / 16), hex_digit(c as int % 16)]
    } else {
        seq![c]
    }
}

/// The characters of `s`, each escaped as a JSON string literal needs it.
pub open spec fn json_escape(s: Seq<char>) -> Seq<char>
    decreases s.len(),
{
    if s.len() == 0 {
        Seq::<char>::empty()
    } else {
        json_escape_char(s[0]) + json_escape(s.skip(1))
    }
}

/// The JSON string literal of `s`: its escaped characters between double quotes.
pub open spec fn json_string_literal(s: Seq<char>) -> Seq<char> {
    seq!['"'] + json_escape(s) + seq!['"']
}

/// `c` is an underscore or an upper-case ASCII letter: a character that no
/// escape sequence holds.
pub open spec fn plain_char(c: char) -> bool {
    c as int == 95 || (65 <= c as int && c as int <= 90)
}

/// `p` is made of underscores and upper-case ASCII letters only.
pub open spec fn plain_text(p: Seq<char>) -> bool {
    forall|i: int| 0 <= i < p.len() ==> plain_char(#[trigger] p[i])
}

/// `pat` occurs somewhere in `s`.
pub open spec fn occurs_in(s: Seq<char>, pat: Seq<char>) -> bool {
    exists|i: int| 0 <= i && i + pat.len() <= s.len() && #[trigger] s.subrange(i, i + pat.len()) == pat
}

/// An escaped character becomes a sequence without plain characters.
proof fn lemma_escape_not_plain(c: char)
    requires
        json_escape_char(c) != seq![c],
    ensures
        forall|i: int| 0 <= i < json_escape_char(c).len() ==> !plain_char(#[trigger] json_escape_char(c)[i]),
{
    if c != '"' && c != '\\' && c != '\u{8}' && c != '\t' && c != '\n' && c != '\u{c}' && c != '\r' {
        let d1 = c as int / 16;
        let d2 = c as int % 16;
        assert(0 <= d1 < 16 && 0 <= d2 < 16);
        assert(hex_digit(d1) as int == if d1 < 10 { 48 + d1 } else { 87 + d1 });
        assert(hex_digit(d2) as int == if d2 < 10 { 48 + d2 } else { 87 + d2 });
    }
}

/// The escaped text, from its start, as far as it holds only plain
/// characters, is the same stretch of the text itself.
proof fn lemma_escape_plain_prefix(s: Seq<char>, n: int)
    requires
        0 <= n <= json_escape(s).len(),
        forall|i: int| 0 <= i < n ==> plain_char(#[trigger] json_escape(s)[i]),
    ensures
        n <= s.len(),
        json_escape(s).take(n) == s.take(n),
    decreases s.len(),
{
    let e = json_escape(s);
    if n == 0 {
        assert(e.take(0) =~= s.take(0));
    } else if s.len() == 0 {
    } else {
        let r = s.skip(1);
        let er = json_escape(r);
        assert(e == json_escape_char(s[0]) + er);
        if json_escape_char(s[0]) != seq![s[0]] {
            lemma_escape_not_plain(s[0]);
            assert(e[0] == json_escape_char(s[0])[0]);
            assert(plain_char(e[0]));
        } else {
            assert forall|i: int| 0 <= i < n - 1 implies plain_char(#[trigger] er[i]) by {
                assert(er[i] == e[i + 1]);
            }
            lemma_escape_plain_prefix(r, n - 1);
            assert(e.take(n) =~= seq![s[0]] + er.take(n - 1));
            assert(s.take(n) =~= seq![s[0]] + r.take(n - 1));
        }
    }
}

/// Escaping brings in no plain text that was not already there.
proof fn lemma_escape_keeps_out(s: Seq<char>, p: Seq<char>)
    requires
        p.len() > 0,
        plain_text(p),
        !occurs_in(s, p),
    ensures
        !occurs_in(json_escape(s), p),
    decreases s.len(),
{
    let e = json_escape(s);
    let m = p.len() as int;
    if s.len() > 0 {
        let r = s.skip(1);
        let er = json_escape(r);
        let ec = json_escape_char(s[0]);
        assert forall|j: int| 0 <= j && j + m <= r.len() implies #[trigger] r.subrange(j, j + m) != p by {
            assert(r.subrange(j, j + m) =~= s.subrange(j + 1, j + 1 + m));
        }
        lemma_escape_keeps_out(r, p);
        assert(e == ec + er);
        if occurs_in(e, p) {
            let i = choose|i: int| 0 <= i && i + p.len() <= e.len() && #[trigger] e.subrange(i, i + p.len()) == p;
            if i >= ec.len() {
                assert(er.subrange(i - ec.len(), i - ec.len() + m) =~= e.subrange(i, i + m));
            } else if ec != seq![s[0]] {
                lemma_escape_not_plain(s[0]);
                assert(e.subrange(i, i + m)[0] == ec[i]);
                assert(plain_char(p[0]));
            } else {
                assert forall|j: int| 0 <= j < m - 1 implies plain_char(#[trigger] er[j]) by {
                    assert(er[j] == e.subrange(0, m)[j + 1]);
                }
                lemma_escape_plain_prefix(r, m - 1);
                assert(s.take(m) =~= seq![s[0]] + r.take(m - 1));
                assert(e.subrange(0, m) =~= seq![s[0]] + er.take(m - 1));
                assert(s.subrange(0, m) =~= s.take(m));
            }
        }
    }
}

/// A plain text that does not occur in `s` does not occur in its JSON
/// string literal either.
pub proof fn lemma_literal_keeps_out(s: Seq<char>, p: Seq<char>)
    requires
        p.len() > 0,
        plain_text(p),
        !occurs_in(s, p),
    ensures
        !occurs_in(json_string_literal(s), p),
{
    lemma_escape_keeps_out(s, p);
    let e = json_escape(s);
    let l = json_string_literal(s);
    let m = p.len() as int;
    if occurs_in(l, p) {
        let i = choose|i: int| 0 <= i && i + p.len() <= l.len() && #[trigger] l.subrange(i, i + p.len()) == p;
        if i == 0 {
            assert(l.subrange(i, i + m)[0] == '"');
            assert(plain_char(p[0]));
        } else if i + m == l.len() {
            assert(l.subrange(i, i + m)[m - 1] == '"');
            assert(plain_char(p[m - 1]));
        } else {
            assert(e.subrange(i - 1, i - 1 + m) =~= l.subrange(i, i + m));
        }
    }
}

/// `serde_json::to_string` on a string slice, which cannot fail for a `str`.
///
/// The contract states the literal that serde_json's string serializer writes
/// (`format_escaped_str`, its `ESCAPE` table and `write_char_escape`): a double
/// quote, each character escaped as `json_escape_char` says, a double quote.
#[verifier::external_body]
pub(crate) fn json_quote(s: &str) -> (r: String)
    ensures
        r@ == json_string_literal(s@),
{
    serde_json::to_string(s).unwrap()
}

/// Appends the JSON string literal of `s` to `out`.
pub(crate) fn push_json_string(out: &mut String, s: &str)
    ensures
        final(out)@ == old(out)@ + json_string_literal(s@),
{
    let q = json_quote(s);
    out.append(q.as_str());
}

} // verus!
