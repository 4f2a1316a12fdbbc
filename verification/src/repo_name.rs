//! Escaping of repository names for use as one URL path segment.
//!
//! A repository name is user-controlled, so it is percent-encoded before it
//! is placed into a URL: every UTF-8 byte of the name except ASCII letters,
//! digits, `_`, `-` and `.` becomes `%` followed by two upper-case hex digits.

use vstd::prelude::*;
use vstd::utf8::encode_utf8;

verus! {

/// Bytes that are copied into the escaped name unchanged.
pub open spec fn is_unreserved(b: u8) -> bool {
    ||| 48 <= b <= 57
    ||| 65 <= b <= 90
    ||| 97 <= b <= 122
    ||| b == 95
    ||| b == 45
    ||| b == 46
}

/// The upper-case hex digit for a nibble.
pub open spec fn upper_hex_digit(n: u8) -> char {
    if n < 10 {
        (48 + n) as char
    } else {
        (55 + n) as char
    }
}

/// What one byte of the name turns into.
pub open spec fn escape_byte(b: u8) -> Seq<char> {
    if is_unreserved(b) {
        seq![b as char]
    } else {
        seq!['%', upper_hex_digit(b / 16), upper_hex_digit(b % 16)]
    }
}

/// The escaping of a byte string, byte by byte.
pub open spec fn percent_escape(bytes: Seq<u8>) -> Seq<char>
    decreases bytes.len(),
{
    if bytes.len() == 0 {
        Seq::empty()
    } else {
        percent_escape(bytes.drop_last()) + escape_byte(bytes.last())
    }
}

/// The escaped form of a repository name: its UTF-8 bytes, escaped.
pub open spec fn encoded_repo_name(name: Seq<char>) -> Seq<char> {
    percent_escape(encode_utf8(name))
}

fn upper_nibble_char(n: u8) -> (c: char)
    requires
        n < 16,
    ensures
        c == upper_hex_digit(n),
{
    if n < 10 {
        (48 + n) as char
    } else {
        (55 + n) as char
    }
}

fn byte_is_unreserved(b: u8) -> (r: bool)
    ensures
        r == is_unreserved(b),
{
    (48 <= b && b <= 57) || (65 <= b && b <= 90) || (97 <= b && b <= 122) || b == 95 || b == 45
        || b == 46
}

/// Percent-encodes a repository name so that it can stand as one path
/// segment of a URL.
pub fn encode_repo_name(name: &str) -> (res: String)
    ensures
        res@ == encoded_repo_name(name@),
{
    let bytes = name.as_bytes();
    let mut res = String::new();
    let mut i: usize = 0;
    while i < bytes.len()
        invariant
            i <= bytes@.len(),
            bytes@ == encode_utf8(name@),
            res@ == percent_escape(bytes@.subrange(0, i as int)),
        decreases bytes@.len() - i,
    {
        let b = bytes[i];
        if byte_is_unreserved(b) {
            res.push(b as char);
        } else {
            res.push('%');
            res.push(upper_nibble_char(b / 16));
            res.push(upper_nibble_char(b % 16));
        }
        assert(bytes@.subrange(0, i + 1).drop_last() =~= bytes@.subrange(0, i as int));
        i = i + 1;
    }
    assert(bytes@.subrange(0, bytes@.len() as int) =~= bytes@);
    res
}

/// Characters that may appear in an escaped repository name: ASCII
/// letters, digits, `_`, `-`, `.` and `%`.
pub open spec fn is_segment_char(c: char) -> bool {
    let n = c as u32;
    ||| 48 <= n <= 57
    ||| 65 <= n <= 90
    ||| 97 <= n <= 122
    ||| n == 95
    ||| n == 45
    ||| n == 46
    ||| n == 37
}

proof fn lemma_escape_chars(bytes: Seq<u8>)
    ensures
        forall|i: int| 0 <= i < percent_escape(bytes).len() ==> is_segment_char(#[trigger] percent_escape(bytes)[i]),
    decreases bytes.len(),
{
    if bytes.len() > 0 {
        lemma_escape_chars(bytes.drop_last());
        let b = bytes.last();
        let left = percent_escape(bytes.drop_last());
        let right = escape_byte(b);
        assert forall|i: int| 0 <= i < right.len() implies is_segment_char(#[trigger] right[i]) by {
            if is_unreserved(b) {
                assert(right[i] == b as char);
            } else {
                assert(b / 16 < 16 && b % 16 < 16);
            }
        }
        assert forall|i: int| 0 <= i < percent_escape(bytes).len() implies is_segment_char(#[trigger] percent_escape(bytes)[i]) by {
            if i < left.len() {
                assert(percent_escape(bytes)[i] == left[i]);
            } else {
                assert(percent_escape(bytes)[i] == right[i - left.len()]);
            }
        }
    }
}

/// An escaped repository name stays within one URL path segment: it holds
/// only ASCII letters, digits, `_`, `-`, `.` and `%`, so never a `/`, `?`,
/// `#` or anything else that would end the segment or change the URL.
pub proof fn lemma_encoded_name_is_one_segment(name: Seq<char>)
    ensures
        forall|i: int| 0 <= i < encoded_repo_name(name).len() ==> is_segment_char(#[trigger] encoded_repo_name(name)[i]),
{
    lemma_escape_chars(encode_utf8(name));
}

/// The value of an upper-case hex digit.
pub open spec fn hex_value(c: char) -> int {
    let n = c as u32;
    if n <= 57 {
        n - 48
    } else {
        n - 55
    }
}

/// Undoes the escaping: `%` and two hex digits give back one byte, any
/// other character stands for itself.
pub open spec fn percent_unescape(s: Seq<char>) -> Seq<u8>
    decreases s.len(),
{
    if s.len() == 0 {
        Seq::empty()
    } else if s[0] == '%' && s.len() >= 3 {
        seq![(hex_value(s[1]) * 16 + hex_value(s[2])) as u8] + percent_unescape(s.skip(3))
    } else {
        seq![(s[0] as u32) as u8] + percent_unescape(s.skip(1))
    }
}

proof fn lemma_escape_front(bytes: Seq<u8>)
    requires
        bytes.len() > 0,
    ensures
        percent_escape(bytes) == escape_byte(bytes[0]) + percent_escape(bytes.drop_first()),
    decreases bytes.len(),
{
    if bytes.len() == 1 {
        assert(bytes.drop_last() =~= Seq::<u8>::empty());
        assert(bytes.drop_first() =~= Seq::<u8>::empty());
        assert(percent_escape(bytes) =~= escape_byte(bytes[0]) + percent_escape(bytes.drop_first()));
    } else {
        lemma_escape_front(bytes.drop_last());
        assert(bytes.drop_last().drop_first() =~= bytes.drop_first().drop_last());
        assert(bytes.drop_first().last() == bytes.last());
        assert(percent_escape(bytes) =~= escape_byte(bytes[0]) + percent_escape(bytes.drop_first()));
    }
}

proof fn lemma_unescape_byte(b: u8, rest: Seq<char>)
    ensures
        percent_unescape(escape_byte(b) + rest) == seq![b] + percent_unescape(rest),
{
    let e = escape_byte(b) + rest;
    if is_unreserved(b) {
        assert(e[0] == b as char);
        assert(e.skip(1) =~= rest);
        assert(((b as char) as u32) as u8 == b);
    } else {
        assert(e[0] == '%');
        assert(e.skip(3) =~= rest);
        assert(b / 16 < 16 && b % 16 < 16);
        assert(hex_value(upper_hex_digit(b / 16)) == b / 16);
        assert(hex_value(upper_hex_digit(b % 16)) == b % 16);
        assert((b / 16) * 16 + b % 16 == b);
    }
}

proof fn lemma_unescape_escape(bytes: Seq<u8>)
    ensures
        percent_unescape(percent_escape(bytes)) == bytes,
    decreases bytes.len(),
{
    if bytes.len() == 0 {
        assert(percent_escape(bytes) =~= Seq::<char>::empty());
    } else {
        lemma_escape_front(bytes);
        lemma_unescape_byte(bytes[0], percent_escape(bytes.drop_first()));
        lemma_unescape_escape(bytes.drop_first());
        assert(seq![bytes[0]] + bytes.drop_first() =~= bytes);
    }
}

/// Escaping loses nothing: undoing it gives back the name's UTF-8 bytes, so
/// two different repository names never share one URL.
pub proof fn lemma_encoded_name_is_reversible(name: Seq<char>, other: Seq<char>)
    ensures
        percent_unescape(encoded_repo_name(name)) == encode_utf8(name),
        encoded_repo_name(name) == encoded_repo_name(other) ==> name == other,
{
    lemma_unescape_escape(encode_utf8(name));
    lemma_unescape_escape(encode_utf8(other));
    vstd::utf8::encode_utf8_decode_utf8(name);
    vstd::utf8::encode_utf8_decode_utf8(other);
}

} // verus!
