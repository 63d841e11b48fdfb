//! Reading an animation file for the user interface: the checks before the
//! read, the mapping of its outcome, and base64 for transport.

use vstd::prelude::*;
use crate::error::ViewerError;
use crate::paths::{is_whitespace, is_whitespace_char};
use crate::text::chars_of;

verus! {

/// Empty or made of (Unicode) whitespace only.
pub open spec fn is_blank(s: Seq<char>) -> bool {
    forall|i: int| 0 <= i < s.len() ==> is_whitespace(#[trigger] s[i])
}

/// Refuses an empty or blank path before anything is read.
pub fn check_read_path(path: &str) -> (r: Result<(), ViewerError>)
    ensures
        is_blank(path@) ==> r == Err::<(), ViewerError>(ViewerError::InvalidArgument),
        !is_blank(path@) ==> r is Ok,
{
    let cs = chars_of(path);
    let mut i: usize = 0;
    while i < cs.len()
        invariant
            i <= cs@.len(),
            cs@ == path@,
            forall|k: int| 0 <= k < i ==> is_whitespace(#[trigger] path@[k]),
        decreases cs@.len() - i,
    {
        let c = cs[i];
        if !is_whitespace_char(c) {
            return Ok(());
        }
        i = i + 1;
    }
    Err(ViewerError::InvalidArgument)
}

/// The result of reading `path`, given what the read returned: its bytes,
/// or the system's message, which is reported with the path.
pub fn read_result(path: &str, read: Result<Vec<u8>, String>) -> (r: Result<Vec<u8>, ViewerError>)
    ensures
        read is Ok ==> r is Ok && r->Ok_0 == read->Ok_0,
        read is Err ==> r is Err && r->Err_0 is Io && r->Err_0->Io_path@ == path@
            && r->Err_0->Io_message == read->Err_0,
{
    match read {
        Ok(bytes) => Ok(bytes),
        Err(message) => Err(ViewerError::Io { path: String::from_str(path), message }),
    }
}

/// The base64 digit for a six-bit value (standard alphabet).
pub open spec fn base64_digit(v: int) -> char {
    if v < 26 {
        (65 + v) as char
    } else if v < 52 {
        (97 + (v - 26)) as char
    } else if v < 62 {
        (48 + (v - 52)) as char
    } else if v == 62 {
        '+'
    } else {
        '/'
    }
}

/// Four digits for three bytes.
pub open spec fn base64_group(a: u8, b: u8, c: u8) -> Seq<char> {
    seq![
        base64_digit(a as int / 4),
        base64_digit((a as int % 4) * 16 + b as int / 16),
        base64_digit((b as int % 16) * 4 + c as int / 64),
        base64_digit(c as int % 64),
    ]
}

/// Standard base64 with `=` padding.
pub open spec fn base64(bs: Seq<u8>) -> Seq<char>
    decreases bs.len(),
{
    if bs.len() == 0 {
        Seq::empty()
    } else if bs.len() == 1 {
        base64_group(bs[0], 0, 0).take(2) + seq!['=', '=']
    } else if bs.len() == 2 {
        base64_group(bs[0], bs[1], 0).take(3) + seq!['=']
    } else {
        base64_group(bs[0], bs[1], bs[2]) + base64(bs.skip(3))
    }
}

fn digit(v: u8) -> (r: char)
    requires
        v < 64,
    ensures
        r == base64_digit(v as int),
{
    if v < 26 {
        (65 + v) as char
    } else if v < 52 {
        (97 + (v - 26)) as char
    } else if v < 62 {
        (48 + (v - 52)) as char
    } else if v == 62 {
        '+'
    } else {
        '/'
    }
}

/// `bytes` in standard base64 with `=` padding.
pub fn encode_base64(bytes: &[u8]) -> (r: String)
    ensures
        r@ == base64(bytes@),
{
    let n = bytes.len();
    let mut out = String::new();
    let mut i: usize = 0;
    assert(bytes@.skip(0) =~= bytes@);
    while n - i >= 3
        invariant
            i <= n,
            n == bytes@.len(),
            base64(bytes@) == out@ + base64(bytes@.skip(i as int)),
        decreases n - i,
    {
        let ghost tail = bytes@.skip(i as int);
        let a = bytes[i];
        let b = bytes[i + 1];
        let c = bytes[i + 2];
        out.push(digit(a / 4));
        out.push(digit((a % 4) * 16 + b / 16));
        out.push(digit((b % 16) * 4 + c / 64));
        out.push(digit(c % 64));
        assert(tail.skip(3) =~= bytes@.skip(i + 3));
        i = i + 3;
        assert(base64(bytes@) =~= out@ + base64(bytes@.skip(i as int)));
    }
    let ghost tail = bytes@.skip(i as int);
    if n - i == 1 {
        let a = bytes[i];
        out.push(digit(a / 4));
        out.push(digit((a % 4) * 16));
        out.push('=');
        out.push('=');
        assert(out@ =~= base64(bytes@));
    } else if n - i == 2 {
        let a = bytes[i];
        let b = bytes[i + 1];
        out.push(digit(a / 4));
        out.push(digit((a % 4) * 16 + b / 16));
        out.push(digit((b % 16) * 4));
        out.push('=');
        assert(out@ =~= base64(bytes@));
    } else {
        assert(tail.len() == 0);
        assert(out@ =~= base64(bytes@));
    }
    out
}

} // verus!
