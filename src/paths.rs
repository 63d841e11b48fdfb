//! Recognising which command-line arguments and URLs name an openable
//! `.riv` animation file.

use vstd::prelude::*;
use crate::text::chars_of;

verus! {

/// Unicode White_Space, the characters `char::is_whitespace` accepts.
pub open spec fn is_whitespace(c: char) -> bool {
    ('\u{9}' <= c && c <= '\u{d}') || c == ' ' || c == '\u{85}' || c == '\u{a0}' || c
        == '\u{1680}' || ('\u{2000}' <= c && c <= '\u{200a}') || c == '\u{2028}' || c
        == '\u{2029}' || c == '\u{202f}' || c == '\u{205f}' || c == '\u{3000}'
}

/// Whether `c` is Unicode White_Space.
pub fn is_whitespace_char(c: char) -> (r: bool)
    ensures
        r == is_whitespace(c),
{
    ('\u{9}' <= c && c <= '\u{d}') || c == ' ' || c == '\u{85}' || c == '\u{a0}' || c
        == '\u{1680}' || ('\u{2000}' <= c && c <= '\u{200a}') || c == '\u{2028}' || c
        == '\u{2029}' || c == '\u{202f}' || c == '\u{205f}' || c == '\u{3000}'
}

/// Characters stripped from both ends of a candidate path: whitespace and quotes.
pub open spec fn is_trim_char(c: char) -> bool {
    is_whitespace(c) || c == '"' || c == '\''
}

pub open spec fn trim_start(s: Seq<char>) -> Seq<char>
    decreases s.len(),
{
    if s.len() > 0 && is_trim_char(s[0]) {
        trim_start(s.drop_first())
    } else {
        s
    }
}

pub open spec fn trim_end(s: Seq<char>) -> Seq<char>
    decreases s.len(),
{
    if s.len() > 0 && is_trim_char(s.last()) {
        trim_end(s.drop_last())
    } else {
        s
    }
}

/// `s` without surrounding whitespace and quotes.
pub open spec fn trimmed(s: Seq<char>) -> Seq<char> {
    trim_end(trim_start(s))
}

/// `c` equals the pattern character `p`, ignoring ASCII case.
pub open spec fn eq_ignore_case(c: char, p: char) -> bool {
    c == p || ('a' <= p && p <= 'z' && (c as u32) + 32 == (p as u32))
        || ('A' <= p && p <= 'Z' && (c as u32) == (p as u32) + 32)
}

/// `p` occurs in `s` at position `i`, ignoring ASCII case.
pub open spec fn matches_at(s: Seq<char>, i: int, p: Seq<char>) -> bool {
    &&& 0 <= i
    &&& i + p.len() <= s.len()
    &&& forall|k: int| 0 <= k < p.len() ==> eq_ignore_case(#[trigger] s[i + k], p[k])
}

pub open spec fn ends_with_ignore_case(s: Seq<char>, p: Seq<char>) -> bool {
    s.len() >= p.len() && matches_at(s, s.len() - p.len(), p)
}

pub open spec fn starts_with_ignore_case(s: Seq<char>, p: Seq<char>) -> bool {
    matches_at(s, 0, p)
}

/// `p` occurs in `s`, as it is, at some position at or after `from`.
pub open spec fn occurs_from(s: Seq<char>, from: int, p: Seq<char>) -> bool {
    exists|i: int| from <= i && i + p.len() <= s.len() && #[trigger] s.subrange(i, i + p.len()) == p
}

pub open spec fn riv_extension() -> Seq<char> {
    seq!['.', 'r', 'i', 'v']
}

pub open spec fn file_scheme() -> Seq<char> {
    seq!['f', 'i', 'l', 'e', ':', '/', '/']
}

/// A trimmed candidate names an animation file: it is non-empty, is not a
/// command-line flag, and either ends with `.riv` (ignoring ASCII case) or
/// is a `file://` URL (scheme ignoring ASCII case) with `.riv` somewhere
/// after the scheme.
pub open spec fn is_openable_trimmed(t: Seq<char>) -> bool {
    &&& t.len() > 0
    &&& t[0] != '-'
    &&& ends_with_ignore_case(t, riv_extension())
        || (starts_with_ignore_case(t, file_scheme())
            && occurs_from(t, file_scheme().len() as int, riv_extension()))
}

/// A raw candidate (an argument or a URL) names an animation file.
pub open spec fn is_openable(s: Seq<char>) -> bool {
    is_openable_trimmed(trimmed(s))
}

fn is_trim_char_exec(c: char) -> (r: bool)
    ensures
        r == is_trim_char(c),
{
    is_whitespace_char(c) || c == '"' || c == '\''
}

fn eq_ignore_case_exec(c: char, p: char) -> (r: bool)
    ensures
        r == eq_ignore_case(c, p),
{
    let cu = c as u32;
    let pu = p as u32;
    c == p || ('a' <= p && p <= 'z' && cu + 32 == pu) || ('A' <= p && p <= 'Z' && cu == pu + 32)
}

/// The candidate with surrounding whitespace and quotes removed.
pub fn trim_path(s: &str) -> (r: String)
    ensures
        r@ == trimmed(s@),
{
    let cs = chars_of(s);
    let n = cs.len();
    let mut lo: usize = 0;
    assert(s@.skip(0) =~= s@);
    while lo < n && is_trim_char_exec(cs[lo])
        invariant
            lo <= n,
            n == cs@.len(),
            cs@ == s@,
            trim_start(s@) == trim_start(s@.skip(lo as int)),
        decreases n - lo,
    {
        assert(s@.skip(lo as int).drop_first() =~= s@.skip(lo + 1));
        lo = lo + 1;
    }
    assert(trim_start(s@) == s@.subrange(lo as int, n as int)) by {
        assert(s@.skip(lo as int) =~= s@.subrange(lo as int, n as int));
    }
    let mut hi: usize = n;
    while hi > lo && is_trim_char_exec(cs[hi - 1])
        invariant
            lo <= hi <= n,
            n == cs@.len(),
            cs@ == s@,
            trimmed(s@) == trim_end(s@.subrange(lo as int, hi as int)),
        decreases hi - lo,
    {
        assert(s@.subrange(lo as int, hi as int).drop_last() =~= s@.subrange(lo as int, hi - 1));
        hi = hi - 1;
    }
    let mut out = String::new();
    let mut i: usize = lo;
    while i < hi
        invariant
            lo <= i <= hi <= n,
            n == cs@.len(),
            cs@ == s@,
            out@ == s@.subrange(lo as int, i as int),
        decreases hi - i,
    {
        out.push(cs[i]);
        i = i + 1;
        assert(out@ =~= s@.subrange(lo as int, i as int));
    }
    out
}

fn matches_at_exec(t: &Vec<char>, i: usize, p: &Vec<char>) -> (r: bool)
    ensures
        r == matches_at(t@, i as int, p@),
{
    if p.len() > t.len() || i > t.len() - p.len() {
        return false;
    }
    let tn = t.len();
    let mut k: usize = 0;
    while k < p.len()
        invariant
            tn == t@.len(),
            k <= p@.len(),
            i + p@.len() <= t@.len(),
            forall|j: int| 0 <= j < k ==> eq_ignore_case(#[trigger] t@[i + j], p@[j]),
        decreases p@.len() - k,
    {
        assert(i + k < t@.len());
        if !eq_ignore_case_exec(t[i + k], p[k]) {
            return false;
        }
        k = k + 1;
    }
    true
}

fn occurs_exactly_at(t: &Vec<char>, i: usize, p: &Vec<char>) -> (r: bool)
    requires
        i + p@.len() <= t@.len(),
    ensures
        r == (t@.subrange(i as int, i + p@.len()) == p@),
{
    let tn = t.len();
    let mut k: usize = 0;
    while k < p.len()
        invariant
            tn == t@.len(),
            k <= p@.len(),
            i + p@.len() <= t@.len(),
            forall|j: int| 0 <= j < k ==> t@[i + j] == p@[j],
        decreases p@.len() - k,
    {
        assert(i + k < t@.len());
        if t[i + k] != p[k] {
            assert(t@.subrange(i as int, i + p@.len())[k as int] != p@[k as int]);
            return false;
        }
        k = k + 1;
    }
    assert(t@.subrange(i as int, i + p@.len()) =~= p@);
    true
}

fn occurs_from_exec(t: &Vec<char>, from: usize, p: &Vec<char>) -> (r: bool)
    requires
        p@.len() > 0,
    ensures
        r == occurs_from(t@, from as int, p@),
{
    if p.len() > t.len() {
        return false;
    }
    let last = t.len() - p.len();
    assert(last < usize::MAX);
    let mut i: usize = from;
    while i <= last
        invariant
            from <= i,
            last + p@.len() == t@.len(),
            p@.len() > 0,
            last < usize::MAX,
            forall|j: int|
                from <= j < i && j + p@.len() <= t@.len() ==> #[trigger] t@.subrange(j, j + p@.len())
                    != p@,
        decreases last + 1 - i,
    {
        if occurs_exactly_at(t, i, p) {
            return true;
        }
        i = i + 1;
    }
    false
}

fn riv_extension_exec() -> (r: Vec<char>)
    ensures
        r@ == riv_extension(),
{
    let mut v: Vec<char> = Vec::new();
    v.push('.');
    v.push('r');
    v.push('i');
    v.push('v');
    assert(v@ =~= riv_extension());
    v
}

fn file_scheme_exec() -> (r: Vec<char>)
    ensures
        r@ == file_scheme(),
{
    let mut v: Vec<char> = Vec::new();
    v.push('f');
    v.push('i');
    v.push('l');
    v.push('e');
    v.push(':');
    v.push('/');
    v.push('/');
    assert(v@ =~= file_scheme());
    v
}

/// Whether `candidate` names an openable animation file: after trimming
/// whitespace and quotes it is non-empty, does not start with `-`, and either
/// ends with `.riv` or is a `file://` URL containing `.riv` after the scheme.
pub fn is_openable_path(candidate: &str) -> (r: bool)
    ensures
        r == is_openable(candidate@),
{
    let t = chars_of(trim_path(candidate).as_str());
    if t.len() == 0 || t[0] == '-' {
        return false;
    }
    let ext = riv_extension_exec();
    if t.len() >= ext.len() && matches_at_exec(&t, t.len() - ext.len(), &ext) {
        return true;
    }
    let scheme = file_scheme_exec();
    matches_at_exec(&t, 0, &scheme) && occurs_from_exec(&t, scheme.len(), &ext)
}

/// The trimmed path when `candidate` names an openable animation file.
pub fn openable_path(candidate: &str) -> (r: Option<String>)
    ensures
        r is Some <==> is_openable(candidate@),
        r is Some ==> r->Some_0@ == trimmed(candidate@),
{
    if is_openable_path(candidate) {
        Some(trim_path(candidate))
    } else {
        None
    }
}

} // verus!
