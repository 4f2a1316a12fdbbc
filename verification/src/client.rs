//! The remote API client: URL building, request configuration and the
//! requests that each call makes.

use vstd::prelude::*;
use vstd::string::StringSliceAdditionalSpecFns;
use vstd::string::StringExecFns;
use std::sync::Arc;
use crate::batching::batches_of;
use crate::batching::flatten;
use crate::batching::lemma_batches_preserve_keys;
use crate::batching::nested_view;
use crate::batching::split_into_batches;
use crate::config::copy_opt;
use crate::config::copy_pairs;
use crate::config::is_configured;
use crate::config::opt_view;
use crate::config::Config;
use crate::config::Encoding;
use crate::config::Method;
use crate::config::RequestSpec;
use crate::endpoints::Endpoint;
use crate::errors::SaplingRemoteApiError;
use crate::hex::hex_lower;
use crate::hex::lemma_hex_ascii;
use crate::repo_name::encode_repo_name;
use crate::repo_name::encoded_repo_name;
use crate::retry::RetryState;
use crate::types::FileSpec;
use crate::types::HgId;
use crate::types::Key;
use crate::types::TreeAttributes;
use crate::urls::join_url;
use vstd::utf8::encode_utf8;
use crate::urls::set_url_query;
use crate::urls::url_join;
use crate::urls::url_set_query;
use crate::urls::is_query_settable;
use crate::urls::query_settable;
use crate::urls::parse_url;
use crate::urls::url_parse;
use crate::urls::plain_query;
use crate::urls::plain_query_char;

verus! {

broadcast use vstd::utf8::group_utf8_lib;

/// The state shared by all clones of a client.
pub struct ClientInner {
    config: Config,
}

/// A client of the remote API for one repository.
#[derive(Clone)]
pub struct Client {
    inner: Arc<ClientInner>,
}

/// A request together with the value that its body carries.
pub struct PreparedRequest<B> {
    pub request: RequestSpec,
    pub body: B,
}

/// Inputs whose single-input requests can be routed by a node hash.
pub trait Routable {
    /// The node hash that a request for this input alone is routed by.
    spec fn spec_routing_hgid(&self) -> Seq<u8>;

    /// The node hash that a request for this input alone is routed by.
    fn routing_hgid(&self) -> (h: &HgId)
        ensures
            h@ == self.spec_routing_hgid(),
    ;
}

impl Routable for Key {
    open spec fn spec_routing_hgid(&self) -> Seq<u8> {
        self.hgid@
    }

    fn routing_hgid(&self) -> (h: &HgId) {
        &self.hgid
    }
}

impl Routable for FileSpec {
    open spec fn spec_routing_hgid(&self) -> Seq<u8> {
        self.key.hgid@
    }

    fn routing_hgid(&self) -> (h: &HgId) {
        &self.key.hgid
    }
}

/// The URL of `path` inside repository `repo` on server `server`: the
/// escaped repository name and a slash are joined onto the server URL, and
/// the path onto that.
pub open spec fn repo_url(server: Seq<char>, repo: Seq<char>, path: Seq<char>) -> Option<Seq<char>> {
    match url_join(server, encoded_repo_name(repo).push('/')) {
        Some(base) => url_join(base, path),
        None => None,
    }
}

/// The query that routes a request by node hash `h`.
pub open spec fn routing_query(h: Seq<u8>) -> Seq<char> {
    "routing_key="@ + hex_lower(h)
}

/// Whether a batch's request carries a routing key.
pub open spec fn needs_routing<T>(c: Config, batch: Seq<T>) -> bool {
    c.try_route_consistently && batch.len() == 1
}

/// The URL of a batch's request: the endpoint URL, with the routing query
/// when the batch is routed; `None` when that query cannot be set.
pub open spec fn batch_url<T: Routable>(c: Config, url: Seq<char>, batch: Seq<T>) -> Option<Seq<char>> {
    if needs_routing(c, batch) {
        url_set_query(url, routing_query(batch[0].spec_routing_hgid()))
    } else {
        Some(url)
    }
}

/// Whether some batch's request carries a routing key.
pub open spec fn some_batch_routed<T>(c: Config, batches: Seq<Seq<T>>) -> bool {
    exists|i: int| 0 <= i < batches.len() && needs_routing(c, #[trigger] batches[i])
}

/// The length in bytes of a routing query: `routing_key=` and forty hex
/// digits.
pub open spec fn routing_query_bytes() -> nat {
    52
}

/// Whether a routing query can be set on `url` without the `url` crate
/// aborting: always when `url` does not parse, since the call then fails
/// before any query is set.
pub open spec fn routing_settable(url: Seq<char>) -> bool {
    match url_parse(url) {
        Some(s) => query_settable(encode_utf8(s), routing_query_bytes()),
        None => true,
    }
}

/// Whether every routed batch's URL can be formed from `url`.
pub open spec fn batches_addressable<T: Routable>(c: Config, url: Seq<char>, batches: Seq<Seq<T>>) -> bool {
    forall|i: int| 0 <= i < batches.len() && needs_routing(c, #[trigger] batches[i]) ==>
        routing_settable(url) && batch_url(c, url, batches[i]) is Some
}

/// Whether `reqs` are the batched requests for `keys` to `url`: one POST
/// request per batch, in order, each configured and carrying its batch.
pub open spec fn is_batched_plan<T>(reqs: Seq<PreparedRequest<Vec<T>>>, c: Config, url: Seq<char>, keys: Seq<T>, batch_size: Option<usize>, min_batch_size: Option<usize>, client_info: Option<Seq<char>>) -> bool {
    let batches = batches_of(keys, batch_size, min_batch_size);
    &&& reqs.len() == batches.len()
    &&& forall|i: int| 0 <= i < reqs.len() ==> {
        &&& (#[trigger] reqs[i]).body@ == batches[i]
        &&& is_configured(reqs[i].request, Method::Post, url, c, client_info)
    }
}

/// Whether `r` is what `make_req` and `mutate_url` make of `batch`: a
/// configured POST to the URL that `mutate_url` gives for `url` and the
/// batch, whose body `make_req` makes of the batch.
pub open spec fn is_prepared_from<T, B, M: Fn(Vec<T>) -> B, U: Fn(&str, &Vec<T>) -> String>(r: PreparedRequest<B>, c: Config, url: &str, batch: Vec<T>, make_req: M, mutate_url: U, client_info: Option<Seq<char>>) -> bool {
    &&& make_req.ensures((batch,), r.body)
    &&& mutate_url.ensures((url, &batch), r.request.url)
    &&& is_configured(r.request, Method::Post, r.request.url@, c, client_info)
}

/// Whether `r` is what `make_req` and `mutate_url` make of a batch holding
/// `batch`.
pub open spec fn is_prepared_for<T, B, M: Fn(Vec<T>) -> B, U: Fn(&str, &Vec<T>) -> String>(r: PreparedRequest<B>, c: Config, url: &str, batch: Seq<T>, make_req: M, mutate_url: U, client_info: Option<Seq<char>>) -> bool {
    exists|b: Vec<T>| b@ == batch && #[trigger] is_prepared_from(r, c, url, b, make_req, mutate_url, client_info)
}

/// Whether `reqs` are the routed batched requests for `keys` to `url`.
pub open spec fn is_routed_plan<T: Routable>(reqs: Seq<PreparedRequest<Vec<T>>>, c: Config, url: Seq<char>, keys: Seq<T>, batch_size: Option<usize>, min_batch_size: Option<usize>, client_info: Option<Seq<char>>) -> bool {
    let batches = batches_of(keys, batch_size, min_batch_size);
    &&& reqs.len() == batches.len()
    &&& forall|i: int| 0 <= i < reqs.len() ==> {
        &&& (#[trigger] reqs[i]).body@ == batches[i]
        &&& batch_url(c, url, batches[i]) == Some(reqs[i].request.url@)
        &&& is_configured(reqs[i].request, Method::Post, reqs[i].request.url@, c, client_info)
    }
}

/// The URL of an endpoint for this configuration.
pub open spec fn endpoint_url(c: Config, endpoint: Endpoint) -> Option<Seq<char>> {
    if endpoint.spec_repoless() {
        url_join(c.server_url@, endpoint.spec_path())
    } else {
        repo_url(c.server_url@, c.repo_name@, endpoint.spec_path())
    }
}

/// Whether `r` is the request for a single-request call to `endpoint` at
/// `url`: configured, then with the minimum transfer speed switched off or
/// the response asked uncompressed where the endpoint calls for it.
pub open spec fn is_endpoint_request(r: RequestSpec, c: Config, endpoint: Endpoint, url: Seq<char>, client_info: Option<Seq<char>>) -> bool {
    &&& r.method == endpoint.spec_method()
    &&& r.url@ == url
    &&& crate::config::pairs_view(r.headers@) == crate::config::pairs_view(c.headers@)
    &&& r.timeout == c.timeout
    &&& r.http_version == c.http_version
    &&& r.accept_encoding == (if endpoint.spec_uncompressed() { Some(Encoding::Identity) } else { c.encoding })
    &&& r.min_transfer_speed == (if endpoint.spec_waits_for_completion() { None } else { c.min_transfer_speed })
    &&& opt_view(r.client_info) == client_info
}

/// A single request to an endpoint whose server answers only once its work
/// is done, or at an uneven pace (changeset uploads, bookmark moves,
/// landings, the commit graph and its segments), has the minimum transfer
/// speed switched off; every other single request keeps the configured one.
pub proof fn lemma_slow_answers_are_not_cut_short(r: RequestSpec, c: Config, e: Endpoint, url: Seq<char>, client_info: Option<Seq<char>>)
    requires
        is_endpoint_request(r, c, e, url, client_info),
    ensures
        (e is UploadChangesets || e is SetBookmark || e is LandStack || e is CommitGraph || e is CommitGraphSegments)
            ==> r.min_transfer_speed is None,
        !(e is UploadChangesets || e is SetBookmark || e is LandStack || e is CommitGraph || e is CommitGraphSegments)
            ==> r.min_transfer_speed == c.min_transfer_speed,
{
}

/// A single request reads the health check and the capabilities with
/// `GET` and sends everything else, downloads included, with `POST`.
pub proof fn lemma_single_request_methods(r: RequestSpec, c: Config, e: Endpoint, url: Seq<char>, client_info: Option<Seq<char>>)
    requires
        is_endpoint_request(r, c, e, url, client_info),
    ensures
        (e is HealthCheck || e is Capabilities) ==> r.method == Method::Get,
        e is Upload ==> r.method == Method::Put,
        !(e is HealthCheck || e is Capabilities || e is Upload) ==> r.method == Method::Post,
{
}

/// The attributes of a tree fetch keep what the caller asked for: the
/// given attributes, with augmented trees asked for when the caller or the
/// configuration asks for them; without given attributes, the manifest
/// blob and the parents, and augmented trees as configured.
pub proof fn lemma_tree_attributes_keep_the_request(client: Client, given: TreeAttributes)
    ensures
        client.spec_tree_attributes(Some(given)).manifest_blob == given.manifest_blob,
        client.spec_tree_attributes(Some(given)).parents == given.parents,
        client.spec_tree_attributes(Some(given)).child_metadata == given.child_metadata,
        client.spec_tree_attributes(Some(given)).augmented_trees == (given.augmented_trees || client.spec_config().augmented_trees),
        given.augmented_trees ==> client.spec_tree_attributes(Some(given)).augmented_trees,
        client.spec_tree_attributes(None).manifest_blob && client.spec_tree_attributes(None).parents,
        !client.spec_tree_attributes(None).child_metadata,
        client.spec_tree_attributes(None).augmented_trees == client.spec_config().augmented_trees,
{
}

/// Whether `reqs` are the requests of a batched call to `endpoint` with
/// `keys`: none when the keys are empty and the endpoint is then not
/// called, otherwise one per batch.
pub open spec fn is_call_plan<T>(reqs: Seq<PreparedRequest<Vec<T>>>, c: Config, endpoint: Endpoint, keys: Seq<T>, client_info: Option<Seq<char>>) -> bool {
    if keys.len() == 0 && endpoint.spec_skips_empty() {
        reqs.len() == 0
    } else {
        &&& endpoint_url(c, endpoint) is Some
        &&& is_batched_plan(reqs, c, endpoint_url(c, endpoint)->0, keys, endpoint.spec_batch_size(c), endpoint.spec_min_batch_size(c), client_info)
    }
}

/// Whether `reqs` are the requests of a routed batched call to `endpoint`
/// with `keys`.
pub open spec fn is_routed_call_plan<T: Routable>(reqs: Seq<PreparedRequest<Vec<T>>>, c: Config, endpoint: Endpoint, keys: Seq<T>, client_info: Option<Seq<char>>) -> bool {
    if keys.len() == 0 && endpoint.spec_skips_empty() {
        reqs.len() == 0
    } else {
        &&& endpoint_url(c, endpoint) is Some
        &&& is_routed_plan(reqs, c, endpoint_url(c, endpoint)->0, keys, endpoint.spec_batch_size(c), endpoint.spec_min_batch_size(c), client_info)
    }
}

/// Whether `e` is how a batched call to `endpoint` with `n` keys fails:
/// only when the endpoint is called and its URL cannot be formed.
pub open spec fn batched_failure(c: Config, endpoint: Endpoint, n: nat, e: SaplingRemoteApiError) -> bool {
    !(n == 0 && endpoint.spec_skips_empty()) && endpoint_url(c, endpoint) is None && e is Url
}

/// Whether `e` is how a routed batched call to `endpoint` with `keys`
/// fails: when the endpoint is called and its URL cannot be formed, or a
/// routed batch's URL cannot; `UrlTooLong` exactly where the URL is too
/// long for its query to be edited.
pub open spec fn routed_failure<T: Routable>(c: Config, endpoint: Endpoint, keys: Seq<T>, e: SaplingRemoteApiError) -> bool {
    let batches = batches_of(keys, endpoint.spec_batch_size(c), endpoint.spec_min_batch_size(c));
    &&& !(keys.len() == 0 && endpoint.spec_skips_empty())
    &&& match endpoint_url(c, endpoint) {
        None => e is Url,
        Some(u) => !batches_addressable(c, u, batches) && if !routing_settable(u) && some_batch_routed(c, batches) {
            e is UrlTooLong
        } else {
            e is Url
        },
    }
}

/// The inputs carried by a list of prepared requests, request by request.
pub open spec fn carried_keys<T>(reqs: Seq<PreparedRequest<Vec<T>>>) -> Seq<Seq<T>> {
    reqs.map_values(|r: PreparedRequest<Vec<T>>| r.body@)
}

/// A batched call requests every input exactly once and in order: the
/// inputs of its requests, put back together, are the call's inputs. This
/// holds for routed calls too.
pub proof fn lemma_call_requests_every_key<T: Routable>(reqs: Seq<PreparedRequest<Vec<T>>>, c: Config, endpoint: Endpoint, keys: Seq<T>, client_info: Option<Seq<char>>)
    requires
        endpoint.spec_batch_size(c) != Some(0usize),
        endpoint.spec_batched(),
        is_call_plan(reqs, c, endpoint, keys, client_info) || is_routed_call_plan(reqs, c, endpoint, keys, client_info),
    ensures
        flatten(carried_keys(reqs)) == keys,
{
    if keys.len() == 0 && endpoint.spec_skips_empty() {
        assert(carried_keys(reqs) =~= Seq::<Seq<T>>::empty());
        assert(flatten(Seq::<Seq<T>>::empty()) =~= keys);
    } else {
        let batches = batches_of(keys, endpoint.spec_batch_size(c), endpoint.spec_min_batch_size(c));
        assert(carried_keys(reqs) =~= batches);
        lemma_batches_preserve_keys(keys, endpoint.spec_batch_size(c), endpoint.spec_min_batch_size(c));
    }
}

/// The body of a request that carries its batch as it is.
fn batch_itself<T>(batch: Vec<T>) -> (r: Vec<T>)
    ensures
        r == batch,
{
    batch
}

/// The URL of a request that goes to `url` whatever its batch.
fn url_itself<T>(url: &str, _batch: &Vec<T>) -> (r: String)
    ensures
        r@ == url@,
{
    String::from_str(url)
}

impl Client {
    /// The client's configuration.
    pub closed spec fn spec_config(&self) -> Config {
        self.inner.config
    }

    /// The attributes asked for in a tree fetch: those given, or the
    /// defaults, with augmented trees also asked for when the configuration
    /// says so.
    pub open spec fn spec_tree_attributes(&self, attributes: Option<TreeAttributes>) -> TreeAttributes {
        let given = match attributes {
            Some(t) => t,
            None => TreeAttributes::spec_default(),
        };
        TreeAttributes {
            manifest_blob: given.manifest_blob,
            parents: given.parents,
            child_metadata: given.child_metadata,
            augmented_trees: given.augmented_trees || self.spec_config().augmented_trees,
        }
    }

    /// Creates a client with the given configuration.
    pub fn with_config(config: Config) -> (c: Self)
        ensures
            c.spec_config() == config,
    {
        let inner = Arc::new(ClientInner { config });
        Client { inner }
    }

    /// The client's configuration.
    pub fn config(&self) -> (c: &Config)
        ensures
            *c == self.spec_config(),
    {
        &self.inner.config
    }

    /// The repository the client works on.
    pub fn repo_name(&self) -> (r: &str)
        ensures
            r@ == self.spec_config().repo_name@,
    {
        self.config().repo_name.as_str()
    }

    /// The server's base URL.
    pub fn url(&self) -> (u: Option<String>)
        ensures
            u matches Some(s) && s@ == self.spec_config().server_url@,
    {
        Some(self.config().server_url.clone())
    }

    /// The retry policy of the client's calls.
    pub fn retry_state(&self) -> (s: RetryState)
        ensures
            s.attempts_made() == 0,
            s.retry_limit() == self.spec_config().max_retry_per_request,
            s.wf(),
    {
        RetryState::new(self.config().max_retry_per_request)
    }

    /// Appends an endpoint path onto the server's base URL.
    pub fn build_url_repoless(&self, path: &str) -> (res: Result<String, SaplingRemoteApiError>)
        ensures
            match res {
                Ok(u) => url_join(self.spec_config().server_url@, path@) == Some(u@),
                Err(e) => url_join(self.spec_config().server_url@, path@) is None && e is Url,
            },
    {
        match join_url(self.config().server_url.as_str(), path) {
            Ok(u) => Ok(u),
            Err(e) => Err(SaplingRemoteApiError::Url(e)),
        }
    }

    /// Appends the escaped repository name and an endpoint path onto the
    /// server's base URL.
    pub fn build_url(&self, path: &str) -> (res: Result<String, SaplingRemoteApiError>)
        ensures
            match res {
                Ok(u) => repo_url(self.spec_config().server_url@, self.spec_config().repo_name@, path@) == Some(u@),
                Err(e) => repo_url(self.spec_config().server_url@, self.spec_config().repo_name@, path@) is None && e is Url,
            },
    {
        let mut segment = encode_repo_name(self.repo_name());
        segment.push('/');
        let base = match join_url(self.config().server_url.as_str(), segment.as_str()) {
            Ok(u) => u,
            Err(e) => return Err(SaplingRemoteApiError::Url(e)),
        };
        match join_url(base.as_str(), path) {
            Ok(u) => Ok(u),
            Err(e) => Err(SaplingRemoteApiError::Url(e)),
        }
    }

    /// A request with this method and URL, carrying the configured headers,
    /// timeout, HTTP version, accepted encoding and minimum transfer speed,
    /// and the client information when there is some.
    pub fn configure_request(&self, method: Method, url: String, client_info: Option<String>) -> (r: RequestSpec)
        ensures
            is_configured(r, method, url@, self.spec_config(), opt_view(client_info)),
            r.url == url,
    {
        let config = self.config();
        RequestSpec {
            method,
            url,
            headers: copy_pairs(&config.headers),
            timeout: config.timeout,
            http_version: config.http_version,
            accept_encoding: config.encoding,
            min_transfer_speed: config.min_transfer_speed,
            client_info,
        }
    }

    /// The URL of an endpoint: inside the repository, except for the
    /// health check.
    pub fn endpoint_url(&self, endpoint: Endpoint) -> (res: Result<String, SaplingRemoteApiError>)
        ensures
            match res {
                Ok(u) => endpoint_url(self.spec_config(), endpoint) == Some(u@),
                Err(e) => endpoint_url(self.spec_config(), endpoint) is None && e is Url,
            },
    {
        if matches!(endpoint, Endpoint::HealthCheck) {
            self.build_url_repoless(endpoint.path())
        } else {
            self.build_url(endpoint.path())
        }
    }

    /// The request of a call that sends one request to `endpoint`.
    pub fn request_for(&self, endpoint: Endpoint, client_info: Option<String>) -> (res: Result<RequestSpec, SaplingRemoteApiError>)
        ensures
            match res {
                Ok(r) => endpoint_url(self.spec_config(), endpoint) is Some
                    && is_endpoint_request(r, self.spec_config(), endpoint, endpoint_url(self.spec_config(), endpoint)->0, opt_view(client_info)),
                Err(e) => endpoint_url(self.spec_config(), endpoint) is None && e is Url,
            },
    {
        let url = self.endpoint_url(endpoint)?;
        let mut r = self.configure_request(endpoint.method(), url, client_info);
        if endpoint.waits_for_completion() {
            r.min_transfer_speed = None;
        }
        if matches!(endpoint, Endpoint::CommitGraph) {
            r.accept_encoding = Some(Encoding::Identity);
        }
        Ok(r)
    }

    /// The request of a single-request call to `endpoint` that carries
    /// `input_count` inputs: none when there are no inputs and the endpoint
    /// is then not called (changeset uploads, suffix queries).
    pub fn plan_single(&self, endpoint: Endpoint, input_count: usize, client_info: Option<String>) -> (res: Result<Option<RequestSpec>, SaplingRemoteApiError>)
        ensures
            match res {
                Ok(None) => input_count == 0 && endpoint.spec_skips_empty(),
                Ok(Some(r)) => !(input_count == 0 && endpoint.spec_skips_empty()) && endpoint_url(self.spec_config(), endpoint) is Some
                    && is_endpoint_request(r, self.spec_config(), endpoint, endpoint_url(self.spec_config(), endpoint)->0, opt_view(client_info)),
                Err(e) => !(input_count == 0 && endpoint.spec_skips_empty()) && endpoint_url(self.spec_config(), endpoint) is None && e is Url,
            },
    {
        if input_count == 0 && endpoint.skips_empty() {
            return Ok(None);
        }
        let r = self.request_for(endpoint, client_info)?;
        Ok(Some(r))
    }

    /// Splits `keys` into batches and prepares one POST request for each
    /// batch, in order: `mutate_url` gives its URL from `url` and the batch,
    /// and `make_req` makes its body of the batch.
    pub fn prepare_requests<T, B, M, U>(&self, url: &str, keys: Vec<T>, batch_size: Option<usize>, min_batch_size: Option<usize>, make_req: M, mutate_url: U, client_info: Option<String>) -> (reqs: Vec<PreparedRequest<B>>)
        where
            M: Fn(Vec<T>) -> B,
            U: Fn(&str, &Vec<T>) -> String,
        requires
            batch_size != Some(0usize),
            forall|b: Vec<T>| make_req.requires((b,)),
            forall|b: &Vec<T>| mutate_url.requires((url, b)),
        ensures
            reqs@.len() == batches_of(keys@, batch_size, min_batch_size).len(),
            forall|i: int| 0 <= i < reqs@.len() ==> #[trigger] is_prepared_for(reqs@[i], self.spec_config(), url, batches_of(keys@, batch_size, min_batch_size)[i], make_req, mutate_url, opt_view(client_info)),
    {
        let batches = split_into_batches(keys, batch_size, min_batch_size);
        let ghost bs = batches@;
        let ghost all = nested_view(batches@);
        let mut reqs: Vec<PreparedRequest<B>> = Vec::new();
        for batch in it: batches.into_iter()
            invariant
                it.seq() == bs,
                all == nested_view(bs),
                all == batches_of(keys@, batch_size, min_batch_size),
                forall|b: Vec<T>| make_req.requires((b,)),
                forall|b: &Vec<T>| mutate_url.requires((url, b)),
                reqs@.len() == it.index(),
                forall|i: int| 0 <= i < it.index() ==> #[trigger] is_prepared_from(reqs@[i], self.spec_config(), url, bs[i], make_req, mutate_url, opt_view(client_info)),
        {
            let target = mutate_url(url, &batch);
            let body = make_req(batch);
            let request = self.configure_request(Method::Post, target, copy_opt(&client_info));
            reqs.push(PreparedRequest { request, body });
        }
        assert forall|i: int| 0 <= i < reqs@.len() implies #[trigger] is_prepared_for(reqs@[i], self.spec_config(), url, batches_of(keys@, batch_size, min_batch_size)[i], make_req, mutate_url, opt_view(client_info)) by {
            assert(bs[i]@ == all[i]);
            assert(is_prepared_from(reqs@[i], self.spec_config(), url, bs[i], make_req, mutate_url, opt_view(client_info)));
        }
        reqs
    }

    /// Splits `keys` into batches and prepares one POST request to `url`
    /// for each batch; with consistent routing configured, the request of a
    /// single-key batch carries that key's node hash as routing key. Fails
    /// when a routing key cannot be set on the URL.
    pub fn prepare_routed_requests<T: Routable>(&self, url: &str, keys: Vec<T>, batch_size: Option<usize>, min_batch_size: Option<usize>, client_info: Option<String>) -> (res: Result<Vec<PreparedRequest<Vec<T>>>, SaplingRemoteApiError>)
        requires
            batch_size != Some(0usize),
        ensures
            match res {
                Ok(reqs) => is_routed_plan(reqs@, self.spec_config(), url@, keys@, batch_size, min_batch_size, opt_view(client_info)),
                Err(e) => {
                    &&& !batches_addressable(self.spec_config(), url@, batches_of(keys@, batch_size, min_batch_size))
                    &&& if !routing_settable(url@) && some_batch_routed(self.spec_config(), batches_of(keys@, batch_size, min_batch_size)) {
                        e is UrlTooLong
                    } else {
                        e is Url
                    }
                },
            },
    {
        let batches = split_into_batches(keys, batch_size, min_batch_size);
        let ghost all = nested_view(batches@);
        let route = self.config().try_route_consistently;
        let editable = match parse_url(url) {
            Ok(parsed) => is_query_settable(parsed.as_str(), 52),
            Err(_) => true,
        };
        let mut reqs: Vec<PreparedRequest<Vec<T>>> = Vec::new();
        for batch in it: batches.into_iter()
            invariant
                it.seq() == batches@,
                all == nested_view(batches@),
                all == batches_of(keys@, batch_size, min_batch_size),
                route == self.spec_config().try_route_consistently,
                editable == routing_settable(url@),
                !editable ==> forall|i: int| 0 <= i < it.index() ==> !needs_routing(self.spec_config(), #[trigger] all[i]),
                reqs@.len() == it.index(),
                forall|i: int| 0 <= i < it.index() ==> {
                    &&& (#[trigger] reqs@[i]).body@ == all[i]
                    &&& batch_url(self.spec_config(), url@, all[i]) == Some(reqs@[i].request.url@)
                    &&& is_configured(reqs@[i].request, Method::Post, reqs@[i].request.url@, self.spec_config(), opt_view(client_info))
                },
        {
            let ghost i = it.index();
            assert(batch@ == all[i]);
            let target = if route && batch.len() == 1 {
                if !editable {
                    return Err(SaplingRemoteApiError::UrlTooLong);
                }
                let mut query = String::from_str("routing_key=");
                let h = batch[0].routing_hgid();
                let hex = h.to_hex();
                proof {
                    h.lemma_len();
                    lemma_hex_ascii(batch@[0].spec_routing_hgid());
                    reveal_strlit("routing_key=");
                    vstd::utf8::is_ascii_chars_concat(query@ + hex@, query@, hex@);
                }
                let ghost prefix = query@;
                query.append(hex.as_str());
                proof {
                    vstd::utf8::is_ascii_chars_encode_utf8(query@);
                    assert forall|k: int| 0 <= k < query@.len() implies plain_query_char(#[trigger] query@[k]) || query@[k] == '=' by {
                        if k >= prefix.len() {
                            assert(query@[k] == hex@[k - prefix.len()]);
                        }
                    }
                    assert(plain_query(query@));
                }
                match set_url_query(url, query.as_str()) {
                    Ok(u) => u,
                    Err(e) => return Err(SaplingRemoteApiError::Url(e)),
                }
            } else {
                String::from_str(url)
            };
            let request = self.configure_request(Method::Post, target, copy_opt(&client_info));
            reqs.push(PreparedRequest { request, body: batch });
        }
        Ok(reqs)
    }

    /// The requests of a batched call to `endpoint` with `keys`: nothing
    /// when there are no keys and the endpoint is then not called,
    /// otherwise one request per batch of the endpoint's size.
    pub fn plan_batched<T>(&self, endpoint: Endpoint, keys: Vec<T>, client_info: Option<String>) -> (res: Result<Vec<PreparedRequest<Vec<T>>>, SaplingRemoteApiError>)
        requires
            endpoint.spec_batch_size(self.spec_config()) != Some(0usize) || (keys@.len() == 0 && endpoint.spec_skips_empty()),
            endpoint.spec_batched(),
            !endpoint.spec_routed(),
        ensures
            match res {
                Ok(reqs) => is_call_plan(reqs@, self.spec_config(), endpoint, keys@, opt_view(client_info)),
                Err(e) => batched_failure(self.spec_config(), endpoint, keys@.len(), e),
            },
    {
        if keys.len() == 0 && endpoint.skips_empty() {
            return Ok(Vec::new());
        }
        let url = self.build_url(endpoint.path())?;
        let batch_size = endpoint.batch_size(self.config());
        let min_batch_size = endpoint.min_batch_size(self.config());
        let ghost ci = opt_view(client_info);
        let target: &str = url.as_str();
        let reqs = self.prepare_requests(target, keys, batch_size, min_batch_size, batch_itself::<T>, url_itself::<T>, client_info);
        proof {
            let batches = batches_of(keys@, batch_size, min_batch_size);
            assert forall|i: int| 0 <= i < reqs@.len() implies {
                &&& (#[trigger] reqs@[i]).body@ == batches[i]
                &&& is_configured(reqs@[i].request, Method::Post, url@, self.spec_config(), ci)
            } by {
                assert(is_prepared_for(reqs@[i], self.spec_config(), target, batches[i], batch_itself::<T>, url_itself::<T>, ci));
                let b = choose|b: Vec<T>| b@ == batches[i] && #[trigger] is_prepared_from(reqs@[i], self.spec_config(), target, b, batch_itself::<T>, url_itself::<T>, ci);
                assert(is_prepared_from(reqs@[i], self.spec_config(), target, b, batch_itself::<T>, url_itself::<T>, ci));
            }
        }
        Ok(reqs)
    }

    /// The requests of a routed batched call (trees, files, history) to
    /// `endpoint` with `keys`.
    pub fn plan_routed<T: Routable>(&self, endpoint: Endpoint, keys: Vec<T>, client_info: Option<String>) -> (res: Result<Vec<PreparedRequest<Vec<T>>>, SaplingRemoteApiError>)
        requires
            endpoint.spec_batch_size(self.spec_config()) != Some(0usize) || (keys@.len() == 0 && endpoint.spec_skips_empty()),
            endpoint.spec_routed(),
        ensures
            match res {
                Ok(reqs) => is_routed_call_plan(reqs@, self.spec_config(), endpoint, keys@, opt_view(client_info)),
                Err(e) => routed_failure(self.spec_config(), endpoint, keys@, e),
            },
    {
        if keys.len() == 0 && endpoint.skips_empty() {
            return Ok(Vec::new());
        }
        let url = self.build_url(endpoint.path())?;
        let batch_size = endpoint.batch_size(self.config());
        let min_batch_size = endpoint.min_batch_size(self.config());
        self.prepare_routed_requests(url.as_str(), keys, batch_size, min_batch_size, client_info)
    }

    /// The attributes asked for in a tree fetch: those given, or the
    /// defaults, with augmented trees also asked for when the configuration
    /// says so.
    pub fn tree_attributes(&self, attributes: Option<TreeAttributes>) -> (a: TreeAttributes)
        ensures
            a == self.spec_tree_attributes(attributes),
    {
        let attrs = match attributes {
            Some(t) => t,
            None => TreeAttributes::default_attributes(),
        };
        TreeAttributes {
            manifest_blob: attrs.manifest_blob,
            parents: attrs.parents,
            child_metadata: attrs.child_metadata,
            augmented_trees: attrs.augmented_trees || self.config().augmented_trees,
        }
    }
}

} // verus!
