//! JSON text: string literals as `serde_json` writes them, documents
//! re-serialized by `serde_json`, and arrays and objects assembled from the
//! texts of their elements.

use vstd::prelude::*;

verus! {

/// `serde_json::Error`, the error type of `serde_json::to_string`.
#[verifier::external_type_specification]
#[verifier::external_body]
pub struct ExJsonError(serde_json::Error);

/// Lower-case hexadecimal digit of a value below 16.
pub open spec fn hex_digit(v: u32) -> char {
    if v == 0 { '0' } else if v == 1 { '1' } else if v == 2 { '2' } else if v == 3 { '3' }
    else if v == 4 { '4' } else if v == 5 { '5' } else if v == 6 { '6' } else if v == 7 { '7' }
    else if v == 8 { '8' } else if v == 9 { '9' } else if v == 10 { 'a' } else if v == 11 { 'b' }
    else if v == 12 { 'c' } else if v == 13 { 'd' } else if v == 14 { 'e' } else { 'f' }
}

/// How one character is written inside a JSON string: quote and backslash
/// take a backslash, five control characters have short escapes, the other
/// characters below U+0020 become `\u00XX`, and the rest stand as they are.
pub open spec fn json_char_escape(c: char) -> Seq<char> {
    if c == '"' {
        seq!['\\', '"']
    } else if c == '\\' {
        seq!['\\', '\\']
    } else if c == '\x08' {
        seq!['\\', 'b']
    } else if c == '\t' {
        seq!['\\', 't']
    } else if c == '\n' {
        seq!['\\', 'n']
    } else if c == '\x0C' {
        seq!['\\', 'f']
    } else if c == '\r' {
        seq!['\\', 'r']
    } else if (c as u32) < 0x20 {
        seq!['\\', 'u', '0', '0', hex_digit((c as u32) / 16), hex_digit((c as u32) % 16)]
    } else {
        seq![c]
    }
}

pub open spec fn json_escape(s: Seq<char>) -> Seq<char>
    decreases s.len(),
{
    if s.len() == 0 {
        s
    } else {
        json_escape(s.drop_last()) + json_char_escape(s.last())
    }
}

/// The JSON string literal for `s`.
pub open spec fn json_string_literal(s: Seq<char>) -> Seq<char> {
    seq!['"'] + json_escape(s) + seq!['"']
}

/// Value of a lower-case hexadecimal digit.
pub open spec fn hex_value(d: char) -> int {
    if '0' <= d && d <= '9' {
        d as int - '0' as int
    } else {
        d as int - 'a' as int + 10
    }
}

/// The character that a two-character escape `\e` stands for.
pub open spec fn short_escape_char(e: char) -> char {
    if e == 'b' {
        '\x08'
    } else if e == 't' {
        '\t'
    } else if e == 'n' {
        '\n'
    } else if e == 'f' {
        '\x0C'
    } else if e == 'r' {
        '\r'
    } else {
        e
    }
}

/// Reading the inside of a JSON string literal back into its characters,
/// for the escapes written above.
pub open spec fn json_unescape(t: Seq<char>) -> Seq<char>
    decreases t.len(),
{
    if t.len() == 0 {
        t
    } else if t[0] == '\\' && t.len() >= 6 && t[1] == 'u' {
        seq![(hex_value(t[4]) * 16 + hex_value(t[5])) as char] + json_unescape(t.skip(6))
    } else if t[0] == '\\' && t.len() >= 2 {
        seq![short_escape_char(t[1])] + json_unescape(t.skip(2))
    } else {
        seq![t[0]] + json_unescape(t.drop_first())
    }
}

proof fn lemma_escape_front(s: Seq<char>)
    requires
        s.len() > 0,
    ensures
        json_escape(s) == json_char_escape(s[0]) + json_escape(s.drop_first()),
    decreases s.len(),
{
    if s.len() == 1 {
        assert(s.drop_last() =~= Seq::<char>::empty());
        assert(s.drop_first() =~= Seq::<char>::empty());
        assert(json_escape(s) =~= json_char_escape(s[0]) + json_escape(s.drop_first()));
    } else {
        lemma_escape_front(s.drop_last());
        assert(s.drop_last().drop_first() =~= s.drop_first().drop_last());
        assert(s.drop_first().last() == s.last());
        assert(json_escape(s) =~= json_char_escape(s[0]) + json_escape(s.drop_first()));
    }
}

proof fn lemma_unescape_char(c: char, rest: Seq<char>)
    ensures
        json_unescape(json_char_escape(c) + rest) == seq![c] + json_unescape(rest),
{
    let e = json_char_escape(c);
    let t = e + rest;
    if c == '"' || c == '\\' || c == '\x08' || c == '\t' || c == '\n' || c == '\x0C' || c == '\r' {
        assert(t.skip(2) =~= rest);
    } else if (c as u32) < 0x20 {
        let v = c as u32;
        assert(t.skip(6) =~= rest);
        assert(hex_value(hex_digit(v / 16)) == (v / 16) as int);
        assert(hex_value(hex_digit(v % 16)) == (v % 16) as int);
        assert(((v as int) as char) == c);
    } else {
        assert(t.drop_first() =~= rest);
    }
}

/// A string literal that `serde_json` writes reads back to the text it
/// was written from.
pub proof fn lemma_string_literal_reads_back(s: Seq<char>)
    ensures
        json_unescape(json_escape(s)) == s,
        json_string_literal(s) == seq!['"'] + json_escape(s) + seq!['"'],
    decreases s.len(),
{
    if s.len() > 0 {
        lemma_escape_front(s);
        lemma_unescape_char(s[0], json_escape(s.drop_first()));
        lemma_string_literal_reads_back(s.drop_first());
        assert(s =~= seq![s[0]] + s.drop_first());
    }
}

/// The compact JSON text of the document in `s`, when `s` is one.
pub uninterp spec fn compact_json(s: Seq<char>) -> Option<Seq<char>>;

/// Relies on `serde_json::to_string` applied to a `str`: it writes a quote,
/// the characters escaped by `format_escaped_str_contents` after the
/// `ESCAPE` table, and a quote, into a `Vec`, which cannot fail.
#[verifier::external_body]
fn to_json_string(s: &str) -> (r: Result<String, serde_json::Error>)
    ensures
        r is Ok,
        r is Ok ==> r->Ok_0@ == json_string_literal(s@),
{
    serde_json::to_string(s)
}

/// Relies on `serde_json::from_str::<serde_json::Value>` and the compact
/// `Display` of `serde_json::Value`: `None` when `s` is not one JSON
/// document, else the document written again; both depend on `s` alone.
#[verifier::external_body]
pub(crate) fn reserialize_json(s: &str) -> (r: Option<String>)
    ensures
        r is None ==> compact_json(s@) is None,
        r is Some ==> compact_json(s@) == Some(r->Some_0@),
{
    serde_json::from_str::<serde_json::Value>(s).ok().map(|v| v.to_string())
}

/// The JSON string literal for `s`.
pub fn json_string(s: &str) -> (r: String)
    ensures
        r@ == json_string_literal(s@),
{
    match to_json_string(s) {
        Ok(t) => t,
        Err(_) => String::new(),
    }
}

/// The texts joined with commas.
pub open spec fn join_commas(items: Seq<Seq<char>>) -> Seq<char>
    decreases items.len(),
{
    if items.len() == 0 {
        Seq::empty()
    } else if items.len() == 1 {
        items[0]
    } else {
        join_commas(items.drop_last()) + seq![','] + items.last()
    }
}

/// A JSON array of elements given as JSON texts.
pub open spec fn array_text(items: Seq<Seq<char>>) -> Seq<char> {
    seq!['['] + join_commas(items) + seq![']']
}

/// One member of a JSON object: the key, quoted, then its value's JSON text.
pub open spec fn member_text(key: Seq<char>, value: Seq<char>) -> Seq<char> {
    seq!['"'] + key + seq!['"', ':'] + value
}

pub open spec fn members_view(members: Seq<(String, String)>) -> Seq<Seq<char>> {
    members.map_values(|m: (String, String)| member_text(m.0@, m.1@))
}

/// A JSON object of members given as keys and JSON texts of values.
pub open spec fn object_text(members: Seq<(String, String)>) -> Seq<char> {
    seq!['{'] + join_commas(members_view(members)) + seq!['}']
}

fn push_joined(out: &mut String, i: usize, item: &str)
    ensures
        i == 0 ==> final(out)@ == old(out)@ + item@,
        i > 0 ==> final(out)@ == old(out)@ + seq![','] + item@,
{
    if i > 0 {
        out.push(',');
    }
    out.append(item);
}

/// The JSON array whose elements have the JSON texts `items`.
pub fn json_array(items: &Vec<String>) -> (r: String)
    ensures
        r@ == array_text(items@.map_values(|s: String| s@)),
{
    let ghost views = items@.map_values(|s: String| s@);
    let mut out = String::new();
    out.push('[');
    let mut i: usize = 0;
    while i < items.len()
        invariant
            i <= items@.len(),
            views == items@.map_values(|s: String| s@),
            out@ == seq!['['] + join_commas(views.take(i as int)),
        decreases items@.len() - i,
    {
        push_joined(&mut out, i, items[i].as_str());
        assert(views.take(i + 1).drop_last() =~= views.take(i as int));
        i = i + 1;
        assert(out@ =~= seq!['['] + join_commas(views.take(i as int)));
    }
    out.push(']');
    assert(views.take(i as int) =~= views);
    out
}

/// The JSON object with the given members: each a key, written between
/// quotes as it stands, and the JSON text of its value.
pub fn json_object(members: &Vec<(String, String)>) -> (r: String)
    ensures
        r@ == object_text(members@),
{
    let ghost views = members_view(members@);
    let mut out = String::new();
    out.push('{');
    let mut i: usize = 0;
    while i < members.len()
        invariant
            i <= members@.len(),
            views == members_view(members@),
            out@ == seq!['{'] + join_commas(views.take(i as int)),
        decreases members@.len() - i,
    {
        let mut member = String::new();
        member.push('"');
        member.append(members[i].0.as_str());
        member.push('"');
        member.push(':');
        member.append(members[i].1.as_str());
        assert(member@ =~= views[i as int]);
        push_joined(&mut out, i, member.as_str());
        assert(views.take(i + 1).drop_last() =~= views.take(i as int));
        i = i + 1;
        assert(out@ =~= seq!['{'] + join_commas(views.take(i as int)));
    }
    out.push('}');
    assert(views.take(i as int) =~= views);
    out
}

} // verus!
