//! Client configuration and the description of an outgoing request.

use vstd::prelude::*;
use core::time::Duration;
use crate::errors::SaplingRemoteApiError;
use crate::urls::parse_url;
use crate::urls::url_parse;

verus! {

/// HTTP protocol versions a request can be pinned to.
#[derive(Clone, Copy, Debug)]
pub enum HttpVersion {
    V09,
    V10,
    V11,
    V2,
}

/// Content encodings a response may be sent in.
#[derive(Clone, Copy, Debug)]
pub enum Encoding {
    Identity,
    Brotli,
    Deflate,
    Gzip,
    Zstd,
}

/// The slowest transfer a request tolerates, after a grace period.
#[derive(Clone, Copy, Debug)]
pub struct MinTransferSpeed {
    pub min_bytes_per_second: u32,
    pub grace_period: Duration,
}

/// The HTTP methods the client uses.
#[derive(Clone, Copy, Debug)]
pub enum Method {
    Get,
    Post,
    Put,
}

/// The client's configuration, as the request-building logic reads it.
pub struct Config {
    /// Name of the repository the requests are about.
    pub repo_name: String,
    /// The server's base URL, as serialized by the URL parser.
    pub server_url: String,
    /// Headers added to every request, in the order they are set.
    pub headers: Vec<(String, String)>,
    pub timeout: Option<Duration>,
    pub http_version: Option<HttpVersion>,
    pub encoding: Option<Encoding>,
    pub min_transfer_speed: Option<MinTransferSpeed>,
    pub max_retry_per_request: usize,
    pub max_files_per_batch: Option<usize>,
    pub max_trees_per_batch: Option<usize>,
    pub max_history_per_batch: Option<usize>,
    pub max_location_to_hash_per_batch: Option<usize>,
    pub max_commit_mutations_per_batch: Option<usize>,
    pub max_commit_translate_id_per_batch: Option<usize>,
    pub min_batch_size: Option<usize>,
    pub try_route_consistently: bool,
    pub augmented_trees: bool,
    /// Directory where requests are logged, if any.
    pub log_dir: Option<String>,
}

impl Config {
    /// A configuration for `repo_name` on the server at `server_url`, with
    /// nothing else set: no extra headers, limits or batching, no retries,
    /// no consistent routing and no request log. Fails when the server URL
    /// does not parse.
    pub fn new(repo_name: String, server_url: &str) -> (res: Result<Config, SaplingRemoteApiError>)
        ensures
            match res {
                Ok(c) => {
                    &&& url_parse(server_url@) == Some(c.server_url@)
                    &&& c.repo_name == repo_name
                    &&& c.headers@.len() == 0
                    &&& c.timeout is None && c.http_version is None && c.encoding is None
                    &&& c.min_transfer_speed is None && c.max_retry_per_request == 0
                    &&& c.max_files_per_batch is None && c.max_trees_per_batch is None
                    &&& c.max_history_per_batch is None && c.max_location_to_hash_per_batch is None
                    &&& c.max_commit_mutations_per_batch is None && c.max_commit_translate_id_per_batch is None
                    &&& c.min_batch_size is None && !c.try_route_consistently && !c.augmented_trees
                    &&& c.log_dir is None
                },
                Err(e) => url_parse(server_url@) is None && e is Url,
            },
    {
        match parse_url(server_url) {
            Ok(url) => Ok(Config {
                repo_name,
                server_url: url,
                headers: Vec::new(),
                timeout: None,
                http_version: None,
                encoding: None,
                min_transfer_speed: None,
                max_retry_per_request: 0,
                max_files_per_batch: None,
                max_trees_per_batch: None,
                max_history_per_batch: None,
                max_location_to_hash_per_batch: None,
                max_commit_mutations_per_batch: None,
                max_commit_translate_id_per_batch: None,
                min_batch_size: None,
                try_route_consistently: false,
                augmented_trees: false,
                log_dir: None,
            }),
            Err(e) => Err(SaplingRemoteApiError::Url(e)),
        }
    }
}

/// A fully described HTTP request, short of its body.
pub struct RequestSpec {
    pub method: Method,
    pub url: String,
    pub headers: Vec<(String, String)>,
    pub timeout: Option<Duration>,
    pub http_version: Option<HttpVersion>,
    /// The single encoding accepted for the response, when one is set.
    pub accept_encoding: Option<Encoding>,
    pub min_transfer_speed: Option<MinTransferSpeed>,
    /// The client information, as JSON, sent along with the request.
    pub client_info: Option<String>,
}

/// The characters of a list of string pairs.
pub open spec fn pairs_view(pairs: Seq<(String, String)>) -> Seq<(Seq<char>, Seq<char>)> {
    pairs.map_values(|p: (String, String)| (p.0@, p.1@))
}

/// The characters of an optional string.
pub open spec fn opt_view(s: Option<String>) -> Option<Seq<char>> {
    match s {
        Some(v) => Some(v@),
        None => None,
    }
}

/// Whether `r` is a request with this method and URL, carrying the
/// configured headers, timeout, HTTP version, encoding and minimum transfer
/// speed, and the given client information.
pub open spec fn is_configured(r: RequestSpec, method: Method, url: Seq<char>, c: Config, client_info: Option<Seq<char>>) -> bool {
    &&& r.method == method
    &&& r.url@ == url
    &&& pairs_view(r.headers@) == pairs_view(c.headers@)
    &&& r.timeout == c.timeout
    &&& r.http_version == c.http_version
    &&& r.accept_encoding == c.encoding
    &&& r.min_transfer_speed == c.min_transfer_speed
    &&& opt_view(r.client_info) == client_info
}

/// A copy of the string pairs.
pub fn copy_pairs(pairs: &Vec<(String, String)>) -> (res: Vec<(String, String)>)
    ensures
        pairs_view(res@) == pairs_view(pairs@),
{
    let mut res: Vec<(String, String)> = Vec::new();
    for i in 0..pairs.len()
        invariant
            res@.len() == i,
            forall|j: int| 0 <= j < i ==> (#[trigger] res@[j]).0@ == pairs@[j].0@ && res@[j].1@ == pairs@[j].1@,
    {
        let k = pairs[i].0.clone();
        let v = pairs[i].1.clone();
        res.push((k, v));
    }
    assert(pairs_view(res@) =~= pairs_view(pairs@));
    res
}

/// A copy of an optional string.
pub fn copy_opt(s: &Option<String>) -> (res: Option<String>)
    ensures
        opt_view(res) == opt_view(*s),
{
    match s {
        Some(v) => Some(v.clone()),
        None => None,
    }
}

} // verus!
