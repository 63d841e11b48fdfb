//! Escaping of text that is inlined into the `<script>` elements of a page.

use vstd::prelude::*;
use crate::text::chars_of;

verus! {

/// The sequence that would end a `<script>` element early.
pub open spec fn close_tag() -> Seq<char> {
    seq!['<', '/', 's', 'c', 'r', 'i', 'p', 't']
}

/// Its escaped form: the same text to a script, but no closing tag to HTML.
pub open spec fn escaped_close_tag() -> Seq<char> {
    seq!['<', '\\', '/', 's', 'c', 'r', 'i', 'p', 't']
}

pub open spec fn starts_with(s: Seq<char>, p: Seq<char>) -> bool {
    p.len() <= s.len() && s.take(p.len() as int) == p
}

/// `p` occurs somewhere in `s`.
pub open spec fn occurs_in(s: Seq<char>, p: Seq<char>) -> bool {
    exists|i: int| 0 <= i && i + p.len() <= s.len() && #[trigger] s.subrange(i, i + p.len()) == p
}

/// Script text with each `</script`, left to right, replaced by `<\/script`.
pub open spec fn escape_script(s: Seq<char>) -> Seq<char>
    decreases s.len(),
{
    if s.len() == 0 {
        s
    } else if starts_with(s, close_tag()) {
        escaped_close_tag() + escape_script(s.skip(8))
    } else {
        seq![s[0]] + escape_script(s.drop_first())
    }
}

/// Escape sequence for one character inside a single-quoted script string.
pub open spec fn js_char_escape(c: char) -> Seq<char> {
    if c == '\\' {
        seq!['\\', '\\']
    } else if c == '\'' {
        seq!['\\', '\'']
    } else {
        seq![c]
    }
}

/// Text made to stand between single quotes in a script: backslashes and
/// single quotes are escaped.
pub open spec fn js_escape(s: Seq<char>) -> Seq<char>
    decreases s.len(),
{
    if s.len() == 0 {
        s
    } else {
        js_escape(s.drop_last()) + js_char_escape(s.last())
    }
}

/// What the escaped text starts with, up to a character other than `<`,
/// was there in the text itself.
proof fn lemma_prefix_kept(t: Seq<char>, p: Seq<char>)
    requires
        starts_with(escape_script(t), p),
        forall|k: int| 0 <= k < p.len() ==> p[k] != '<',
    ensures
        starts_with(t, p),
    decreases t.len(),
{
    if p.len() == 0 {
        assert(t.take(0) =~= p);
    } else {
        let e = escape_script(t);
        assert(e.take(p.len() as int)[0] == p[0]);
        if t.len() == 0 {
        } else if starts_with(t, close_tag()) {
            assert(e == escaped_close_tag() + escape_script(t.skip(8)));
            assert(e[0] == '<');
            assert(p[0] == '<');
        } else {
            let rest = t.drop_first();
            assert(e == seq![t[0]] + escape_script(rest));
            let q = p.drop_first();
            assert(escape_script(rest).take(q.len() as int) =~= e.take(p.len() as int).drop_first());
            lemma_prefix_kept(rest, q);
            assert(t[0] == e[0]);
            assert(t.take(p.len() as int) =~= seq![t[0]] + rest.take(q.len() as int));
            assert(p =~= seq![p[0]] + q);
        }
    }
}

/// Escaped script text never holds `</script`, so it cannot close the
/// `<script>` element that it is inlined into.
pub proof fn lemma_escaped_script_has_no_close_tag(s: Seq<char>)
    ensures
        !occurs_in(escape_script(s), close_tag()),
    decreases s.len(),
{
    let e = escape_script(s);
    let c = close_tag();
    if s.len() > 0 {
        if starts_with(s, c) {
            let rest = escape_script(s.skip(8));
            lemma_escaped_script_has_no_close_tag(s.skip(8));
            assert forall|i: int| 0 <= i && i + c.len() <= e.len() implies #[trigger] e.subrange(
                i,
                i + c.len(),
            ) != c by {
                if i >= 9 {
                    assert(e.subrange(i, i + c.len()) =~= rest.subrange(i - 9, i - 9 + c.len()));
                } else if i == 0 {
                    assert(e.subrange(i, i + c.len())[1] == '\\');
                } else {
                    assert(e.subrange(i, i + c.len())[0] == e[i]);
                    assert(e[i] == escaped_close_tag()[i]);
                }
            }
        } else {
            let t = s.drop_first();
            let rest = escape_script(t);
            lemma_escaped_script_has_no_close_tag(t);
            assert forall|i: int| 0 <= i && i + c.len() <= e.len() implies #[trigger] e.subrange(
                i,
                i + c.len(),
            ) != c by {
                if i >= 1 {
                    assert(e.subrange(i, i + c.len()) =~= rest.subrange(i - 1, i - 1 + c.len()));
                } else if e.subrange(0, c.len() as int) == c {
                    let p = c.drop_first();
                    assert(p =~= seq!['/', 's', 'c', 'r', 'i', 'p', 't']);
                    assert(rest.take(p.len() as int) =~= e.subrange(0, c.len() as int).drop_first());
                    lemma_prefix_kept(t, p);
                    assert(s[0] == e[0]);
                    assert(e[0] == e.subrange(0, c.len() as int)[0]);
                    assert(s.take(8) =~= seq![s[0]] + t.take(7));
                    assert(s.take(8) =~= c);
                }
            }
        }
    }
}

/// In text escaped for a single-quoted script string, each quote follows a
/// backslash, so no quote of the text ends the string.
pub proof fn lemma_js_escaped_quotes_follow_backslash(s: Seq<char>)
    ensures
        forall|i: int|
            0 <= i < js_escape(s).len() && #[trigger] js_escape(s)[i] == '\'' ==> i > 0
                && js_escape(s)[i - 1] == '\\',
    decreases s.len(),
{
    if s.len() > 0 {
        let pre = js_escape(s.drop_last());
        let e = js_char_escape(s.last());
        lemma_js_escaped_quotes_follow_backslash(s.drop_last());
        assert(js_escape(s) == pre + e);
        assert forall|i: int|
            0 <= i < js_escape(s).len() && #[trigger] js_escape(s)[i] == '\'' implies i > 0
                && js_escape(s)[i - 1] == '\\' by {
            if i >= pre.len() {
                assert(js_escape(s)[i] == e[i - pre.len()]);
                assert(i == pre.len() + 1);
                assert(js_escape(s)[i - 1] == e[0]);
            } else {
                assert(js_escape(s)[i] == pre[i]);
                assert(js_escape(s)[i - 1] == pre[i - 1]);
            }
        }
    }
}

/// Reading a single-quoted script string back: a backslash stands for the
/// character after it.
pub open spec fn js_unescape(t: Seq<char>) -> Seq<char>
    decreases t.len(),
{
    if t.len() == 0 {
        t
    } else if t[0] == '\\' && t.len() >= 2 {
        seq![t[1]] + js_unescape(t.skip(2))
    } else {
        seq![t[0]] + js_unescape(t.drop_first())
    }
}

proof fn lemma_js_escape_front(s: Seq<char>)
    requires
        s.len() > 0,
    ensures
        js_escape(s) == js_char_escape(s[0]) + js_escape(s.drop_first()),
    decreases s.len(),
{
    if s.len() == 1 {
        assert(s.drop_last() =~= Seq::<char>::empty());
        assert(s.drop_first() =~= Seq::<char>::empty());
        assert(js_escape(s) =~= js_char_escape(s[0]) + js_escape(s.drop_first()));
    } else {
        lemma_js_escape_front(s.drop_last());
        assert(s.drop_last().drop_first() =~= s.drop_first().drop_last());
        assert(s.drop_first().last() == s.last());
        assert(js_escape(s) =~= js_char_escape(s[0]) + js_escape(s.drop_first()));
    }
}

/// Text escaped for a single-quoted script string reads back to itself.
pub proof fn lemma_js_escape_reads_back(s: Seq<char>)
    ensures
        js_unescape(js_escape(s)) == s,
    decreases s.len(),
{
    if s.len() > 0 {
        lemma_js_escape_front(s);
        let rest = js_escape(s.drop_first());
        let t = js_char_escape(s[0]) + rest;
        if s[0] == '\\' || s[0] == '\'' {
            assert(t.skip(2) =~= rest);
        } else {
            assert(t.drop_first() =~= rest);
        }
        lemma_js_escape_reads_back(s.drop_first());
        assert(s =~= seq![s[0]] + s.drop_first());
    }
}

fn close_tag_at(cs: &Vec<char>, i: usize) -> (r: bool)
    requires
        i <= cs@.len(),
    ensures
        r == starts_with(cs@.skip(i as int), close_tag()),
{
    let n = cs.len();
    if n - i < 8 {
        return false;
    }
    let r = cs[i] == '<' && cs[i + 1] == '/' && cs[i + 2] == 's' && cs[i + 3] == 'c' && cs[i + 4]
        == 'r' && cs[i + 5] == 'i' && cs[i + 6] == 'p' && cs[i + 7] == 't';
    assert(r == (cs@.skip(i as int).take(8) =~= close_tag()));
    r
}

/// Script text with every `</script` replaced by `<\/script`.
pub fn escape_script_text(s: &str) -> (r: String)
    ensures
        r@ == escape_script(s@),
{
    let cs = chars_of(s);
    let n = cs.len();
    let mut out = String::new();
    let mut i: usize = 0;
    assert(cs@.skip(0) =~= cs@);
    while i < n
        invariant
            i <= n,
            n == cs@.len(),
            cs@ == s@,
            escape_script(s@) == out@ + escape_script(cs@.skip(i as int)),
        decreases n - i,
    {
        let ghost tail = cs@.skip(i as int);
        if close_tag_at(&cs, i) {
            out.push('<');
            out.push('\\');
            out.push('/');
            out.push('s');
            out.push('c');
            out.push('r');
            out.push('i');
            out.push('p');
            out.push('t');
            assert(tail.skip(8) =~= cs@.skip(i + 8));
            i = i + 8;
        } else {
            out.push(cs[i]);
            assert(tail.drop_first() =~= cs@.skip(i + 1));
            i = i + 1;
        }
        assert(escape_script(s@) =~= out@ + escape_script(cs@.skip(i as int)));
    }
    out
}

/// Text escaped to stand between single quotes in a script.
pub fn js_escape_text(s: &str) -> (r: String)
    ensures
        r@ == js_escape(s@),
{
    let cs = chars_of(s);
    let mut out = String::new();
    let mut i: usize = 0;
    while i < cs.len()
        invariant
            i <= cs@.len(),
            cs@ == s@,
            out@ == js_escape(s@.take(i as int)),
        decreases cs@.len() - i,
    {
        let c = cs[i];
        if c == '\\' {
            out.push('\\');
            out.push('\\');
        } else if c == '\'' {
            out.push('\\');
            out.push('\'');
        } else {
            out.push(c);
        }
        assert(s@.take(i + 1).drop_last() =~= s@.take(i as int));
        i = i + 1;
        assert(out@ =~= js_escape(s@.take(i as int)));
    }
    assert(s@.take(i as int) =~= s@);
    out
}

} // verus!
