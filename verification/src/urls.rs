//! Trusted access to the `url` crate.
//!
//! URLs travel through the library as their serialization (`Url::as_str`),
//! so every operation below takes and gives back plain strings. Each
//! operation parses its first argument with `url::Url::parse` and then
//! applies one `Url` method; what comes out is named by a spec function of
//! the strings that went in.

use vstd::prelude::*;
use vstd::string::StringSliceAdditionalSpecFns;
use vstd::utf8::encode_utf8;


verus! {

/// The serialization of `Url::parse(input)`, or `None` when it fails.
pub uninterp spec fn url_parse(input: Seq<char>) -> Option<Seq<char>>;

/// The serialization of `Url::parse(base)` joined with `input` by
/// `Url::join`, or `None` when either step fails.
pub uninterp spec fn url_join(base: Seq<char>, input: Seq<char>) -> Option<Seq<char>>;

/// The serialization of `Url::parse(url)` after `set_query(Some(query))`,
/// or `None` when the parse fails.
pub uninterp spec fn url_set_query(url: Seq<char>, query: Seq<char>) -> Option<Seq<char>>;

/// The serialization of `Url::parse(url)` after
/// `query_pairs_mut().append_pair(name, value)`, or `None` when the parse
/// fails.
pub uninterp spec fn url_append_pair(url: Seq<char>, name: Seq<char>, value: Seq<char>) -> Option<
    Seq<char>,
>;

/// Whether `c` is written into a query or a form pair as it is: an ASCII
/// letter or digit, or one of `*`, `-`, `.`, `_`. These are the bytes that
/// `form_urlencoded` leaves unchanged, and none of them is in the `url`
/// crate's query encode sets; each is one byte of UTF-8.
pub open spec fn plain_query_char(c: char) -> bool {
    ||| c == '*'
    ||| c == '-'
    ||| c == '.'
    ||| c == '_'
    ||| ('0' <= c && c <= '9')
    ||| ('A' <= c && c <= 'Z')
    ||| ('a' <= c && c <= 'z')
}

/// Whether every character of `s` is written as it is.
pub open spec fn plain_text(s: Seq<char>) -> bool {
    forall|i: int| 0 <= i < s.len() ==> plain_query_char(#[trigger] s[i])
}

/// Whether every character of the query `s` is written as it is: plain
/// characters and `=`.
pub open spec fn plain_query(s: Seq<char>) -> bool {
    forall|i: int| 0 <= i < s.len() ==> plain_query_char(#[trigger] s[i]) || s[i] == '='
}

/// The index of the first `x` in `b` at or after `i`, or the length of `b`
/// when there is none.
pub open spec fn find_from(b: Seq<u8>, x: u8, i: nat) -> nat
    decreases b.len() - i,
{
    if i >= b.len() {
        b.len()
    } else if b[i as int] == x {
        i
    } else {
        find_from(b, x, i + 1)
    }
}

/// Where the fragment of a serialized URL starts: at its first `#`, or at
/// its end when it has none. In a serialization that `Url::parse` made, a
/// `#` anywhere before the fragment is percent-encoded.
pub open spec fn fragment_at(b: Seq<u8>) -> nat {
    find_from(b, 35u8, 0)
}

/// Where the query of a serialized URL starts: at its first `?` before the
/// fragment, or where the fragment starts when it has no query. In a
/// serialization that `Url::parse` made, a `?` before the query is
/// percent-encoded.
pub open spec fn query_at(b: Seq<u8>) -> nat {
    let q = find_from(b, 63u8, 0);
    if q < fragment_at(b) { q } else { fragment_at(b) }
}

/// Whether `set_query(Some(query))`, with a query of `n` plain bytes, runs
/// on the URL serialized as `b` without the `url` crate aborting. The crate
/// drops the fragment and the old query, unwraps the conversion to `u32` of
/// the length left, writes `?` and the query, and, when there was a
/// fragment, unwraps the conversion of the new length before putting the
/// fragment back.
pub open spec fn query_settable(b: Seq<u8>, n: nat) -> bool {
    &&& query_at(b) <= u32::MAX
    &&& fragment_at(b) < b.len() ==> query_at(b) + 1 + n <= u32::MAX
}

/// Whether `query_pairs_mut().append_pair(name, value)`, with `n` plain
/// bytes of name, `=` and value, runs on the URL serialized as `b` without
/// the `url` crate aborting. The crate drops the fragment; without a query
/// it unwraps the conversion to `u32` of the length left and writes `?`;
/// it writes `&` when the query is not empty, then the pair; and, when
/// there was a fragment, unwraps the conversion of the new length before
/// putting the fragment back.
pub open spec fn pair_appendable(b: Seq<u8>, n: nat) -> bool {
    let h = fragment_at(b);
    let q = query_at(b);
    let has_query = q < h;
    let before: int = if has_query { h as int } else { h as int + 1 };
    let sep: int = if has_query && h > q + 1 { 1 } else { 0 };
    &&& !has_query ==> h <= u32::MAX
    &&& h < b.len() ==> before + sep + n <= u32::MAX
}

fn find_byte(b: &[u8], x: u8) -> (i: usize)
    ensures
        i == find_from(b@, x, 0),
{
    let mut i: usize = 0;
    while i < b.len() && b[i] != x
        invariant
            i <= b@.len(),
            find_from(b@, x, 0) == find_from(b@, x, i as nat),
        decreases b@.len() - i,
    {
        i = i + 1;
    }
    i
}

/// Whether a query of `n` plain bytes can be set on the URL serialized as
/// `url`.
pub fn is_query_settable(url: &str, n: usize) -> (r: bool)
    ensures
        r == query_settable(url.spec_bytes(), n as nat),
{
    let b = url.as_bytes();
    let h = find_byte(b, 35u8);
    let q0 = find_byte(b, 63u8);
    let q = if q0 < h { q0 } else { h };
    if q as u128 > u32::MAX as u128 {
        false
    } else if h < b.len() {
        (q as u128) + 1 + (n as u128) <= u32::MAX as u128
    } else {
        true
    }
}

/// Whether a pair of `n` plain bytes, `=` included, can be appended to the
/// query of the URL serialized as `url`.
pub fn is_pair_appendable(url: &str, n: usize) -> (r: bool)
    ensures
        r == pair_appendable(url.spec_bytes(), n as nat),
{
    let b = url.as_bytes();
    let h = find_byte(b, 35u8);
    let q0 = find_byte(b, 63u8);
    let q = if q0 < h { q0 } else { h };
    let has_query = q < h;
    if !has_query && h as u128 > u32::MAX as u128 {
        return false;
    }
    if h < b.len() {
        let before: u128 = if has_query { h as u128 } else { h as u128 + 1 };
        let sep: u128 = if has_query && h > q + 1 { 1 } else { 0 };
        before + sep + (n as u128) <= u32::MAX as u128
    } else {
        true
    }
}

/// Calls `url::Url::parse`. The result is the parsed URL's serialization,
/// as the name `url_parse` says; nothing is claimed about which error comes.
#[verifier::external_body]
pub(crate) fn parse_url(input: &str) -> (res: Result<String, url::ParseError>)
    ensures
        match res {
            Ok(s) => url_parse(input@) == Some(s@),
            Err(_) => url_parse(input@) is None,
        },
{
    url::Url::parse(input).map(String::from)
}

/// Calls `url::Url::join` on the URL that `url::Url::parse(base)` gives.
/// The result is named by `url_join`; nothing is claimed about which error
/// comes.
#[verifier::external_body]
pub(crate) fn join_url(base: &str, input: &str) -> (res: Result<String, url::ParseError>)
    ensures
        match res {
            Ok(s) => url_join(base@, input@) == Some(s@),
            Err(_) => url_join(base@, input@) is None,
        },
{
    url::Url::parse(base).and_then(|u| u.join(input)).map(String::from)
}

/// Calls `url::Url::set_query(Some(query))` on the URL that
/// `url::Url::parse(url)` gives, and serializes the result, named by
/// `url_set_query`. The query is made of plain characters, so the crate
/// writes it as it is; the bound on the parsed URL keeps the crate's `u32`
/// offsets from overflowing, where it would abort.
#[verifier::external_body]
pub(crate) fn set_url_query(url: &str, query: &str) -> (res: Result<String, url::ParseError>)
    requires
        plain_query(query@),
        url_parse(url@) matches Some(s) ==> query_settable(encode_utf8(s), query@.len()),
    ensures
        match res {
            Ok(s) => url_set_query(url@, query@) == Some(s@),
            Err(_) => url_set_query(url@, query@) is None,
        },
{
    url::Url::parse(url).map(|mut u| {
        u.set_query(Some(query));
        String::from(u)
    })
}

/// Calls `url::Url::query_pairs_mut().append_pair(name, value)` on the URL
/// that `url::Url::parse(url)` gives, and serializes the result, named by
/// `url_append_pair`. Name and value are made of plain characters, so the
/// crate writes them as they are; the bound on the parsed URL keeps the
/// crate's `u32` offsets from overflowing, where it would abort.
#[verifier::external_body]
pub(crate) fn append_url_pair(url: &str, name: &str, value: &str) -> (res: Result<
    String,
    url::ParseError,
>)
    requires
        plain_text(name@),
        plain_text(value@),
        url_parse(url@) matches Some(s) ==> pair_appendable(encode_utf8(s), name@.len() + 1 + value@.len()),
    ensures
        match res {
            Ok(s) => url_append_pair(url@, name@, value@) == Some(s@),
            Err(_) => url_append_pair(url@, name@, value@) is None,
        },
{
    url::Url::parse(url).map(|mut u| {
        u.query_pairs_mut().append_pair(name, value);
        String::from(u)
    })
}

} // verus!
