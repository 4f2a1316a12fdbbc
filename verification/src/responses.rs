//! Shaping what the server sends back: capabilities, downloaded files,
//! history entries and the push variables sent with bookmark moves.

use vstd::prelude::*;
use crate::batching::flatten;
use crate::batching::nested_view;
use crate::errors::SaplingRemoteApiError;
use crate::types::PushVar;
use crate::types::UploadTokenMetadata;

verus! {

/// What `serde_json::from_slice::<Vec<String>>` makes of the bytes: the
/// strings, or the text of its error.
pub uninterp spec fn json_string_list(body: Seq<u8>) -> Result<Seq<Seq<char>>, Seq<char>>;

/// The characters of each string.
pub open spec fn strings_view(v: Seq<String>) -> Seq<Seq<char>> {
    v.map_values(|s: String| s@)
}

/// Calls `serde_json::from_slice::<Vec<String>>`, rendering its error with
/// `to_string`; the result is named by `json_string_list`.
#[verifier::external_body]
fn parse_json_string_list(body: &[u8]) -> (res: Result<Vec<String>, String>)
    ensures
        match res {
            Ok(v) => json_string_list(body@) == Ok::<Seq<Seq<char>>, Seq<char>>(strings_view(v@)),
            Err(m) => json_string_list(body@) == Err::<Seq<Seq<char>>, Seq<char>>(m@),
        },
{
    serde_json::from_slice::<Vec<String>>(body).map_err(|e| e.to_string())
}

/// The server's capabilities, read from the JSON list of strings in the
/// response body; a body that is no such list gives a parse error that
/// carries the decoder's message.
pub fn parse_capabilities(body: &[u8]) -> (res: Result<Vec<String>, SaplingRemoteApiError>)
    ensures
        match res {
            Ok(v) => json_string_list(body@) == Ok::<Seq<Seq<char>>, Seq<char>>(strings_view(v@)),
            Err(e) => json_string_list(body@) is Err
                && (e matches SaplingRemoteApiError::ParseResponse(m) && json_string_list(body@) == Err::<Seq<Seq<char>>, Seq<char>>(m@)),
        },
{
    match parse_json_string_list(body) {
        Ok(caps) => Ok(caps),
        Err(m) => Err(SaplingRemoteApiError::ParseResponse(m)),
    }
}

/// The buffer size to reserve for a download: the content size that the
/// token records, when it fits in memory, and nothing otherwise.
pub fn download_capacity(metadata: &Option<UploadTokenMetadata>) -> (n: usize)
    ensures
        match metadata {
            Some(UploadTokenMetadata::FileContentTokenMetadata { content_size }) =>
                if *content_size <= usize::MAX { n == *content_size } else { n == 0 },
            None => n == 0,
        },
{
    match metadata {
        Some(UploadTokenMetadata::FileContentTokenMetadata { content_size }) => {
            if *content_size <= usize::MAX as u64 {
                *content_size as usize
            } else {
                0
            }
        },
        None => 0,
    }
}

/// The downloaded file: all chunks, in the order they arrived.
pub fn download_body(capacity: usize, chunks: Vec<Vec<u8>>) -> (body: Vec<u8>)
    ensures
        body@ == flatten(nested_view(chunks@)),
{
    let ghost all = nested_view(chunks@);
    let mut body: Vec<u8> = Vec::with_capacity(capacity);
    for chunk in it: chunks.into_iter()
        invariant
            it.seq() == chunks@,
            all == nested_view(chunks@),
            body@ == flatten(all.take(it.index())),
    {
        let mut c = chunk;
        assert(all.take(it.index() + 1).drop_last() =~= all.take(it.index() as int));
        body.append(&mut c);
    }
    assert(all.take(all.len() as int) =~= all);
    body
}

/// The history entries of the received chunks: every entry of every
/// chunk, each chunk's entries together and in their order.
pub fn history_entries<E>(chunks: Vec<Vec<E>>) -> (entries: Vec<E>)
    ensures
        entries@ == flatten(nested_view(chunks@)),
{
    let ghost all = nested_view(chunks@);
    let mut entries: Vec<E> = Vec::new();
    for chunk in it: chunks.into_iter()
        invariant
            it.seq() == chunks@,
            all == nested_view(chunks@),
            entries@ == flatten(all.take(it.index())),
    {
        let mut c = chunk;
        assert(all.take(it.index() + 1).drop_last() =~= all.take(it.index() as int));
        entries.append(&mut c);
    }
    assert(all.take(all.len() as int) =~= all);
    entries
}

/// The push variables for the given key/value pairs, in the same order.
pub fn push_vars(pairs: Vec<(String, String)>) -> (vars: Vec<PushVar>)
    ensures
        vars@.len() == pairs@.len(),
        forall|i: int| 0 <= i < pairs@.len() ==> (#[trigger] vars@[i]).key == pairs@[i].0 && vars@[i].value == pairs@[i].1,
{
    let ghost all = pairs@;
    let mut vars: Vec<PushVar> = Vec::new();
    for p in it: pairs.into_iter()
        invariant
            it.seq() == all,
            vars@.len() == it.index(),
            forall|i: int| 0 <= i < it.index() ==> (#[trigger] vars@[i]).key == all[i].0 && vars@[i].value == all[i].1,
    {
        let (key, value) = p;
        vars.push(PushVar { key, value });
    }
    vars
}

} // verus!
