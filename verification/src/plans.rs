//! The requests that each call of the client sends, with their bodies.

use vstd::prelude::*;
use crate::batching::batches_of;
use crate::batching::flatten;
use crate::batching::lemma_batches_preserve_keys;
use crate::client::batch_url;
use crate::client::batched_failure;
use crate::client::routed_failure;
use crate::client::endpoint_url;
use crate::client::Client;
use crate::client::PreparedRequest;
use crate::config::is_configured;
use crate::config::opt_view;
use crate::config::Config;
use crate::config::Method;
use crate::endpoints::Endpoint;
use crate::errors::SaplingRemoteApiError;
use crate::requests::BlameRequest;
use crate::requests::Batch;
use crate::requests::FileRequest;
use crate::requests::HistoryRequest;
use crate::requests::CommitTranslateIdRequest;
use crate::requests::CommitLocationToHashRequestBatch;
use crate::requests::CommitHashToLocationRequestBatch;
use crate::requests::LookupRequest;
use crate::requests::UploadHgFilenodeRequest;
use crate::requests::UploadTreeRequest;
use crate::requests::CommitMutationsRequest;
use crate::requests::UploadHgChangesetsRequest;
use crate::requests::LandStackRequest;
use crate::requests::SetBookmarkRequest;
use crate::requests::CommitGraphRequest;
use crate::requests::CommitGraphSegmentsRequest;
use crate::requests::BookmarkRequest;
use crate::requests::CommitRevlogDataRequest;
use crate::requests::EphemeralPrepareRequest;
use crate::requests::CloudWorkspaceRequest;
use crate::requests::PullLazyRequest;
use crate::requests::PullFastForwardRequest;
use crate::suffix_query::SuffixQueryRequest;
use crate::responses::push_vars;
use crate::client::is_endpoint_request;
use crate::types::FileSpec;
use crate::types::HgId;
use crate::types::AnyId;
use crate::types::ids_view;
use crate::types::copy_ids;
use crate::config::copy_opt;
use crate::requests::TreeRequest;
use crate::requests::UploadBonsaiChangesetRequest;
use crate::types::Key;
use crate::types::TreeAttributes;
use crate::types::AnyFileContentId;
use crate::client::repo_url;
use crate::urls::url_join;
use crate::urls::url_append_pair;
use crate::urls::pair_appendable;
use crate::urls::is_pair_appendable;
use crate::urls::parse_url;
use crate::urls::url_parse;
use crate::urls::plain_text;
use crate::urls::append_url_pair;
use crate::urls::join_url;
use crate::text::decimal;
use crate::text::to_decimal;
use crate::text::lemma_decimal_ascii;
use crate::hex::hex_lower;
use vstd::utf8::encode_utf8;

verus! {

/// Whether `reqs` are the requests of a batched call to `endpoint` with
/// `keys`, each body carrying the batch that `batch_of` reads from it:
/// none when the keys are empty and the endpoint is then not called,
/// otherwise one POST per batch, in order.
pub open spec fn is_body_plan<T, B>(reqs: Seq<PreparedRequest<B>>, c: Config, endpoint: Endpoint, keys: Seq<T>, client_info: Option<Seq<char>>, batch_of: spec_fn(B) -> Seq<T>) -> bool {
    if keys.len() == 0 && endpoint.spec_skips_empty() {
        reqs.len() == 0
    } else {
        let batches = batches_of(keys, endpoint.spec_batch_size(c), endpoint.spec_min_batch_size(c));
        &&& endpoint_url(c, endpoint) is Some
        &&& reqs.len() == batches.len()
        &&& forall|i: int| 0 <= i < reqs.len() ==> {
            &&& batch_of((#[trigger] reqs[i]).body) == batches[i]
            &&& is_configured(reqs[i].request, Method::Post, endpoint_url(c, endpoint)->0, c, client_info)
        }
    }
}

/// Like `is_body_plan`, for calls whose single-key batches may carry a
/// routing key.
pub open spec fn is_routed_body_plan<T: crate::client::Routable, B>(reqs: Seq<PreparedRequest<B>>, c: Config, endpoint: Endpoint, keys: Seq<T>, client_info: Option<Seq<char>>, batch_of: spec_fn(B) -> Seq<T>) -> bool {
    if keys.len() == 0 && endpoint.spec_skips_empty() {
        reqs.len() == 0
    } else {
        let batches = batches_of(keys, endpoint.spec_batch_size(c), endpoint.spec_min_batch_size(c));
        &&& endpoint_url(c, endpoint) is Some
        &&& reqs.len() == batches.len()
        &&& forall|i: int| 0 <= i < reqs.len() ==> {
            &&& batch_of((#[trigger] reqs[i]).body) == batches[i]
            &&& batch_url(c, endpoint_url(c, endpoint)->0, batches[i]) == Some(reqs[i].request.url@)
            &&& is_configured(reqs[i].request, Method::Post, reqs[i].request.url@, c, client_info)
        }
    }
}


/// The URL of a file upload, before its query: the upload endpoint, then
/// `file/`, the kind of hash and the hash in hex.
pub open spec fn file_upload_base(c: Config, item: AnyFileContentId) -> Option<Seq<char>> {
    match repo_url(c.server_url@, c.repo_name@, "upload/"@) {
        Some(u1) => match url_join(u1, "file/"@) {
            Some(u2) => match url_join(u2, item.spec_kind_segment()) {
                Some(u3) => url_join(u3, hex_lower(item@.1)),
                None => None,
            },
            None => None,
        },
        None => None,
    }
}

/// Whether appending the pair `name` = `value` in decimal to `url` would
/// take the parsed URL past what the `url` crate can edit. A URL that does
/// not parse is never too long: the append fails before that.
pub open spec fn append_too_long(url: Seq<char>, name: Seq<char>, value: nat) -> bool {
    match url_parse(url) {
        Some(s) => !pair_appendable(encode_utf8(s), name.len() + 1 + decimal(value).len()),
        None => false,
    }
}

/// `url` with the pair `name` = `value` in decimal appended to its query;
/// `None` when that fails or the URL is too long to edit.
pub open spec fn appended(url: Seq<char>, name: Seq<char>, value: nat) -> Option<Seq<char>> {
    if append_too_long(url, name, value) {
        None
    } else {
        url_append_pair(url, name, decimal(value))
    }
}

/// A URL with the optional bubble id appended as a query pair.
pub open spec fn with_bubble(url: Seq<char>, bubble_id: Option<u64>) -> Option<Seq<char>> {
    match bubble_id {
        Some(b) => appended(url, "bubble_id"@, b as nat),
        None => Some(url),
    }
}

/// The URL of a file upload of `size` bytes into bubble `bubble_id`, or
/// `None` when a step fails.
pub open spec fn file_upload_url(c: Config, item: AnyFileContentId, size: nat, bubble_id: Option<u64>) -> Option<Seq<char>> {
    match file_upload_base(c, item) {
        Some(u4) => match appended(u4, "content_size"@, size) {
            Some(u5) => with_bubble(u5, bubble_id),
            None => None,
        },
        None => None,
    }
}

/// Whether the file upload URL fails for being too long to edit.
pub open spec fn file_upload_too_long(c: Config, item: AnyFileContentId, size: nat, bubble_id: Option<u64>) -> bool {
    match file_upload_base(c, item) {
        Some(u4) => append_too_long(u4, "content_size"@, size) || match appended(u4, "content_size"@, size) {
            Some(u5) => bubble_id matches Some(b) && append_too_long(u5, "bubble_id"@, b as nat),
            None => false,
        },
        None => false,
    }
}

/// The URL of a Bonsai changeset upload into bubble `bubble_id`.
pub open spec fn bonsai_upload_url(c: Config, bubble_id: Option<u64>) -> Option<Seq<char>> {
    match repo_url(c.server_url@, c.repo_name@, "upload/changeset/bonsai"@) {
        Some(u) => with_bubble(u, bubble_id),
        None => None,
    }
}

/// Whether the Bonsai upload URL fails for being too long to edit.
pub open spec fn bonsai_upload_too_long(c: Config, bubble_id: Option<u64>) -> bool {
    match repo_url(c.server_url@, c.repo_name@, "upload/changeset/bonsai"@) {
        Some(u) => bubble_id matches Some(b) && append_too_long(u, "bubble_id"@, b as nat),
        None => false,
    }
}

/// Appends the pair `name` = `value` in decimal to the query of `url`.
fn append_number(url: &str, name: &str, value: u64) -> (res: Result<String, SaplingRemoteApiError>)
    requires
        name@.len() <= 16,
        plain_text(name@),
    ensures
        match res {
            Ok(u) => appended(url@, name@, value as nat) == Some(u@),
            Err(e) => appended(url@, name@, value as nat) is None
                && if append_too_long(url@, name@, value as nat) { e is UrlTooLong } else { e is Url },
        },
{
    let digits = to_decimal(value);
    proof {
        lemma_decimal_ascii(value as nat);
        assert(vstd::utf8::is_ascii_chars(name@));
        vstd::utf8::is_ascii_chars_encode_utf8(digits@);
        vstd::utf8::is_ascii_chars_encode_utf8(name@);
        assert(plain_text(digits@));
    }
    let added = name.len() + 1 + digits.as_str().len();
    let appendable = match parse_url(url) {
        Ok(parsed) => is_pair_appendable(parsed.as_str(), added),
        Err(_) => true,
    };
    if !appendable {
        return Err(SaplingRemoteApiError::UrlTooLong);
    }
    match append_url_pair(url, name, digits.as_str()) {
        Ok(u) => Ok(u),
        Err(e) => Err(SaplingRemoteApiError::Url(e)),
    }
}


/// The inputs carried by the bodies of a list of requests, request by
/// request.
pub open spec fn carried_inputs<T, B>(reqs: Seq<PreparedRequest<B>>, batch_of: spec_fn(B) -> Seq<T>) -> Seq<Seq<T>> {
    reqs.map_values(|r: PreparedRequest<B>| batch_of(r.body))
}

/// The bodies of a batched call carry every input exactly once and in
/// order: put back together, they are the call's inputs.
pub proof fn lemma_bodies_carry_every_input<T, B>(reqs: Seq<PreparedRequest<B>>, c: Config, endpoint: Endpoint, keys: Seq<T>, client_info: Option<Seq<char>>, batch_of: spec_fn(B) -> Seq<T>)
    requires
        endpoint.spec_batch_size(c) != Some(0usize) || (keys.len() == 0 && endpoint.spec_skips_empty()),
        is_body_plan(reqs, c, endpoint, keys, client_info, batch_of),
    ensures
        flatten(carried_inputs(reqs, batch_of)) == keys,
{
    if keys.len() == 0 && endpoint.spec_skips_empty() {
        assert(carried_inputs(reqs, batch_of) =~= Seq::<Seq<T>>::empty());
        assert(flatten(Seq::<Seq<T>>::empty()) =~= keys);
    } else {
        assert(carried_inputs(reqs, batch_of) =~= batches_of(keys, endpoint.spec_batch_size(c), endpoint.spec_min_batch_size(c)));
        lemma_batches_preserve_keys(keys, endpoint.spec_batch_size(c), endpoint.spec_min_batch_size(c));
    }
}

/// The bodies of a routed batched call carry every input exactly once and
/// in order.
pub proof fn lemma_routed_bodies_carry_every_input<T: crate::client::Routable, B>(reqs: Seq<PreparedRequest<B>>, c: Config, endpoint: Endpoint, keys: Seq<T>, client_info: Option<Seq<char>>, batch_of: spec_fn(B) -> Seq<T>)
    requires
        endpoint.spec_batch_size(c) != Some(0usize) || (keys.len() == 0 && endpoint.spec_skips_empty()),
        is_routed_body_plan(reqs, c, endpoint, keys, client_info, batch_of),
    ensures
        flatten(carried_inputs(reqs, batch_of)) == keys,
{
    if keys.len() == 0 && endpoint.spec_skips_empty() {
        assert(carried_inputs(reqs, batch_of) =~= Seq::<Seq<T>>::empty());
        assert(flatten(Seq::<Seq<T>>::empty()) =~= keys);
    } else {
        assert(carried_inputs(reqs, batch_of) =~= batches_of(keys, endpoint.spec_batch_size(c), endpoint.spec_min_batch_size(c)));
        lemma_batches_preserve_keys(keys, endpoint.spec_batch_size(c), endpoint.spec_min_batch_size(c));
    }
}

/// Whether `p` is the one request of a call to `endpoint`, whatever its
/// body.
pub open spec fn is_single_request<B>(p: PreparedRequest<B>, c: Config, endpoint: Endpoint, client_info: Option<Seq<char>>) -> bool {
    &&& endpoint_url(c, endpoint) is Some
    &&& is_endpoint_request(p.request, c, endpoint, endpoint_url(c, endpoint)->0, client_info)
}

/// Whether `vars` are the push variables of `pairs`, in the same order.
pub open spec fn are_push_vars(vars: Seq<crate::types::PushVar>, pairs: Seq<(String, String)>) -> bool {
    &&& vars.len() == pairs.len()
    &&& forall|i: int| 0 <= i < pairs.len() ==> (#[trigger] vars[i]).key == pairs[i].0 && vars[i].value == pairs[i].1
}

/// Replaces the batch of each request by the body that `make` builds from
/// it, keeping the requests and their order.
fn with_bodies<T, B, F: Fn(Vec<T>) -> B>(reqs: Vec<PreparedRequest<Vec<T>>>, make: F) -> (out: Vec<PreparedRequest<B>>)
    requires
        forall|b: Vec<T>| make.requires((b,)),
    ensures
        out@.len() == reqs@.len(),
        forall|i: int| 0 <= i < reqs@.len() ==> (#[trigger] out@[i]).request == reqs@[i].request
            && make.ensures((reqs@[i].body,), out@[i].body),
{
    let ghost all = reqs@;
    let mut out: Vec<PreparedRequest<B>> = Vec::new();
    for r in it: reqs.into_iter()
        invariant
            it.seq() == all,
            forall|b: Vec<T>| make.requires((b,)),
            out@.len() == it.index(),
            forall|i: int| 0 <= i < it.index() ==> (#[trigger] out@[i]).request == all[i].request
                && make.ensures((all[i].body,), out@[i].body),
    {
        let PreparedRequest { request, body } = r;
        let made = make(body);
        out.push(PreparedRequest { request, body: made });
    }
    out
}


/// One lookup request per id, in order, each in bubble `bubble_id` and
/// copying from bubble `copy_from_bubble_id`.
fn lookup_requests(ids: Vec<AnyId>, bubble_id: Option<u64>, copy_from_bubble_id: Option<u64>) -> (res: Batch<LookupRequest>)
    ensures
        res.batch@.len() == ids@.len(),
        forall|i: int| 0 <= i < ids@.len() ==> (#[trigger] res.batch@[i]).id == ids@[i]
            && res.batch@[i].bubble_id == bubble_id && res.batch@[i].copy_from_bubble_id == copy_from_bubble_id,
{
    let ghost all = ids@;
    let mut batch: Vec<LookupRequest> = Vec::new();
    for id in it: ids.into_iter()
        invariant
            it.seq() == all,
            batch@.len() == it.index(),
            forall|i: int| 0 <= i < it.index() ==> (#[trigger] batch@[i]).id == all[i]
                && batch@[i].bubble_id == bubble_id && batch@[i].copy_from_bubble_id == copy_from_bubble_id,
    {
        batch.push(LookupRequest { id, bubble_id, copy_from_bubble_id });
    }
    Batch { batch }
}

/// One filenode upload request per item, in order.
fn filenode_requests<D>(items: Vec<D>) -> (res: Batch<UploadHgFilenodeRequest<D>>)
    ensures
        res.batch@.len() == items@.len(),
        forall|i: int| 0 <= i < items@.len() ==> (#[trigger] res.batch@[i]).data == items@[i],
{
    let ghost all = items@;
    let mut batch: Vec<UploadHgFilenodeRequest<D>> = Vec::new();
    for data in it: items.into_iter()
        invariant
            it.seq() == all,
            batch@.len() == it.index(),
            forall|i: int| 0 <= i < it.index() ==> (#[trigger] batch@[i]).data == all[i],
    {
        batch.push(UploadHgFilenodeRequest { data });
    }
    Batch { batch }
}

/// One tree upload request per entry, in order.
fn tree_upload_requests<E>(items: Vec<E>) -> (res: Batch<UploadTreeRequest<E>>)
    ensures
        res.batch@.len() == items@.len(),
        forall|i: int| 0 <= i < items@.len() ==> (#[trigger] res.batch@[i]).entry == items@[i],
{
    let ghost all = items@;
    let mut batch: Vec<UploadTreeRequest<E>> = Vec::new();
    for entry in it: items.into_iter()
        invariant
            it.seq() == all,
            batch@.len() == it.index(),
            forall|i: int| 0 <= i < it.index() ==> (#[trigger] batch@[i]).entry == all[i],
    {
        batch.push(UploadTreeRequest { entry });
    }
    Batch { batch }
}

impl Client {
    /// The request that uploads one file's content under the given hash
    /// into bubble `bubble_id`: a PUT to `upload/file/<kind>/<hash>` with
    /// the content size and the bubble as query pairs, carrying the
    /// content.
    pub fn file_upload_request(&self, item: &AnyFileContentId, content: Vec<u8>, bubble_id: Option<u64>, client_info: Option<String>) -> (res: Result<PreparedRequest<Vec<u8>>, SaplingRemoteApiError>)
        ensures
            match res {
                Ok(p) => file_upload_url(self.spec_config(), *item, content@.len(), bubble_id) is Some
                    && is_configured(p.request, Method::Put, file_upload_url(self.spec_config(), *item, content@.len(), bubble_id)->0, self.spec_config(), opt_view(client_info))
                    && p.body@ == content@,
                Err(e) => file_upload_url(self.spec_config(), *item, content@.len(), bubble_id) is None
                    && if file_upload_too_long(self.spec_config(), *item, content@.len(), bubble_id) { e is UrlTooLong } else { e is Url },
            },
    {
        let u1 = self.build_url(Endpoint::Upload.path())?;
        let u2 = match join_url(u1.as_str(), "file/") {
            Ok(u) => u,
            Err(e) => return Err(SaplingRemoteApiError::Url(e)),
        };
        let u3 = match join_url(u2.as_str(), item.kind_segment()) {
            Ok(u) => u,
            Err(e) => return Err(SaplingRemoteApiError::Url(e)),
        };
        let hex = item.to_hex();
        let u4 = match join_url(u3.as_str(), hex.as_str()) {
            Ok(u) => u,
            Err(e) => return Err(SaplingRemoteApiError::Url(e)),
        };
        proof {
            reveal_strlit("content_size");
            reveal_strlit("bubble_id");
        }
        let u5 = append_number(u4.as_str(), "content_size", content.len() as u64)?;
        let target = match bubble_id {
            Some(b) => append_number(u5.as_str(), "bubble_id", b)?,
            None => u5,
        };
        let request = self.configure_request(Method::Put, target, client_info);
        Ok(PreparedRequest { request, body: content })
    }

    /// The request that uploads a Bonsai changeset into bubble `bubble_id`:
    /// a POST with the bubble as query pair, carrying the changeset.
    pub fn bonsai_upload_request<C>(&self, changeset: C, bubble_id: Option<u64>, client_info: Option<String>) -> (res: Result<PreparedRequest<UploadBonsaiChangesetRequest<C>>, SaplingRemoteApiError>)
        ensures
            match res {
                Ok(p) => bonsai_upload_url(self.spec_config(), bubble_id) is Some
                    && is_configured(p.request, Method::Post, bonsai_upload_url(self.spec_config(), bubble_id)->0, self.spec_config(), opt_view(client_info))
                    && p.body.changeset == changeset,
                Err(e) => bonsai_upload_url(self.spec_config(), bubble_id) is None
                    && if bonsai_upload_too_long(self.spec_config(), bubble_id) { e is UrlTooLong } else { e is Url },
            },
    {
        let u = self.build_url(Endpoint::UploadBonsaiChangeset.path())?;
        let target = match bubble_id {
            Some(b) => {
                proof {
                    reveal_strlit("bubble_id");
                }
                append_number(u.as_str(), "bubble_id", b)?
            },
            None => u,
        };
        let request = self.configure_request(Method::Post, target, client_info);
        Ok(PreparedRequest { request, body: UploadBonsaiChangesetRequest { changeset } })
    }

    /// The requests that blame `files`: batches of ten files.
    pub fn plan_blame(&self, files: Vec<Key>, client_info: Option<String>) -> (res: Result<Vec<PreparedRequest<BlameRequest>>, SaplingRemoteApiError>)
        ensures
            match res {
                Ok(reqs) => is_body_plan(reqs@, self.spec_config(), Endpoint::Blame, files@, opt_view(client_info), |b: BlameRequest| b.files@),
                Err(e) => batched_failure(self.spec_config(), Endpoint::Blame, files@.len(), e),
            },
    {
        let reqs = self.plan_batched(Endpoint::Blame, files, client_info)?;
        let out = with_bodies(reqs, |files: Vec<Key>| -> (r: BlameRequest)
            ensures
                r.files == files,
            { BlameRequest { files } });
        Ok(out)
    }

    /// The requests that fetch trees `keys` with `attributes` (or the
    /// defaults), augmented as configured: one per batch, each routed when
    /// configured and alone in its batch.
    pub fn plan_trees(&self, keys: Vec<Key>, attributes: Option<TreeAttributes>, client_info: Option<String>) -> (res: Result<Vec<PreparedRequest<TreeRequest>>, SaplingRemoteApiError>)
        requires
            self.spec_config().max_trees_per_batch != Some(0usize) || keys@.len() == 0,
        ensures
            match res {
                Ok(reqs) => {
                    &&& is_routed_body_plan(reqs@, self.spec_config(), Endpoint::Trees, keys@, opt_view(client_info), |b: TreeRequest| b.keys@)
                    &&& forall|i: int| 0 <= i < reqs@.len() ==> (#[trigger] reqs@[i]).body.attributes == self.spec_tree_attributes(attributes)
                },
                Err(e) => routed_failure(self.spec_config(), Endpoint::Trees, keys@, e),
            },
    {
        let attrs = self.tree_attributes(attributes);
        let reqs = self.plan_routed(Endpoint::Trees, keys, client_info)?;
        let out = with_bodies(reqs, |keys: Vec<Key>| -> (r: TreeRequest)
            ensures
                r.keys == keys,
                r.attributes == attrs,
            { TreeRequest { keys, attributes: attrs } });
        Ok(out)
    }

    /// The requests that fetch the files `reqs` asks for: one per batch,
    /// each routed when configured and alone in its batch.
    pub fn plan_files(&self, reqs: Vec<FileSpec>, client_info: Option<String>) -> (res: Result<Vec<PreparedRequest<FileRequest>>, SaplingRemoteApiError>)
        requires
            self.spec_config().max_files_per_batch != Some(0usize) || reqs@.len() == 0,
        ensures
            match res {
                Ok(out) => is_routed_body_plan(out@, self.spec_config(), Endpoint::Files, reqs@, opt_view(client_info), |b: FileRequest| b.reqs@),
                Err(e) => routed_failure(self.spec_config(), Endpoint::Files, reqs@, e),
            },
    {
        let planned = self.plan_routed(Endpoint::Files, reqs, client_info)?;
        let out = with_bodies(planned, |reqs: Vec<FileSpec>| -> (r: FileRequest)
            ensures
                r.reqs == reqs,
            { FileRequest { reqs } });
        Ok(out)
    }

    /// The requests that fetch the history of `keys`, up to `length`
    /// entries each: one per batch, each routed when configured and alone
    /// in its batch.
    pub fn plan_history(&self, keys: Vec<Key>, length: Option<u32>, client_info: Option<String>) -> (res: Result<Vec<PreparedRequest<HistoryRequest>>, SaplingRemoteApiError>)
        requires
            self.spec_config().max_history_per_batch != Some(0usize) || keys@.len() == 0,
        ensures
            match res {
                Ok(reqs) => {
                    &&& is_routed_body_plan(reqs@, self.spec_config(), Endpoint::History, keys@, opt_view(client_info), |b: HistoryRequest| b.keys@)
                    &&& forall|i: int| 0 <= i < reqs@.len() ==> (#[trigger] reqs@[i]).body.length == length
                },
                Err(e) => routed_failure(self.spec_config(), Endpoint::History, keys@, e),
            },
    {
        let reqs = self.plan_routed(Endpoint::History, keys, client_info)?;
        let out = with_bodies(reqs, |keys: Vec<Key>| -> (r: HistoryRequest)
            ensures
                r.keys == keys,
                r.length == length,
            { HistoryRequest { keys, length } });
        Ok(out)
    }

    /// The requests that translate `commits` into `scheme` between
    /// repositories: one per batch, sent even for no commits.
    pub fn plan_commit_translate_id<C, S: Copy>(&self, commits: Vec<C>, scheme: S, from_repo: Option<String>, to_repo: Option<String>, client_info: Option<String>) -> (res: Result<Vec<PreparedRequest<CommitTranslateIdRequest<C, S>>>, SaplingRemoteApiError>)
        requires
            self.spec_config().max_commit_translate_id_per_batch != Some(0usize),
        ensures
            match res {
                Ok(reqs) => {
                    &&& is_body_plan(reqs@, self.spec_config(), Endpoint::CommitTranslateId, commits@, opt_view(client_info), |b: CommitTranslateIdRequest<C, S>| b.commits@)
                    &&& forall|i: int| 0 <= i < reqs@.len() ==> (#[trigger] reqs@[i]).body.scheme == scheme
                        && opt_view(reqs@[i].body.from_repo) == opt_view(from_repo)
                        && opt_view(reqs@[i].body.to_repo) == opt_view(to_repo)
                },
                Err(e) => batched_failure(self.spec_config(), Endpoint::CommitTranslateId, commits@.len(), e),
            },
    {
        let reqs = self.plan_batched(Endpoint::CommitTranslateId, commits, client_info)?;
        let out = with_bodies(reqs, |commits: Vec<C>| -> (r: CommitTranslateIdRequest<C, S>)
            ensures
                r.commits == commits,
                r.scheme == scheme,
                opt_view(r.from_repo) == opt_view(from_repo),
                opt_view(r.to_repo) == opt_view(to_repo),
            { CommitTranslateIdRequest { commits, scheme, from_repo: copy_opt(&from_repo), to_repo: copy_opt(&to_repo) } });
        Ok(out)
    }

    /// The requests that turn commit locations into hashes: one per batch.
    pub fn plan_location_to_hash<R>(&self, requests: Vec<R>, client_info: Option<String>) -> (res: Result<Vec<PreparedRequest<CommitLocationToHashRequestBatch<R>>>, SaplingRemoteApiError>)
        requires
            self.spec_config().max_location_to_hash_per_batch != Some(0usize) || requests@.len() == 0,
        ensures
            match res {
                Ok(reqs) => is_body_plan(reqs@, self.spec_config(), Endpoint::CommitLocationToHash, requests@, opt_view(client_info), |b: CommitLocationToHashRequestBatch<R>| b.requests@),
                Err(e) => batched_failure(self.spec_config(), Endpoint::CommitLocationToHash, requests@.len(), e),
            },
    {
        let reqs = self.plan_batched(Endpoint::CommitLocationToHash, requests, client_info)?;
        let out = with_bodies(reqs, |requests: Vec<R>| -> (r: CommitLocationToHashRequestBatch<R>)
            ensures
                r.requests == requests,
            { CommitLocationToHashRequestBatch { requests } });
        Ok(out)
    }

    /// The requests that locate commit hashes `hgids` relative to
    /// `master_heads`: one per batch of hashes, each with all the master
    /// heads and unfiltered results asked for.
    pub fn plan_hash_to_location(&self, master_heads: Vec<HgId>, hgids: Vec<HgId>, client_info: Option<String>) -> (res: Result<Vec<PreparedRequest<CommitHashToLocationRequestBatch>>, SaplingRemoteApiError>)
        requires
            self.spec_config().max_location_to_hash_per_batch != Some(0usize) || hgids@.len() == 0,
        ensures
            match res {
                Ok(reqs) => {
                    &&& is_body_plan(reqs@, self.spec_config(), Endpoint::CommitHashToLocation, hgids@, opt_view(client_info), |b: CommitHashToLocationRequestBatch| b.hgids@)
                    &&& forall|i: int| 0 <= i < reqs@.len() ==> ids_view((#[trigger] reqs@[i]).body.master_heads@) == ids_view(master_heads@)
                        && reqs@[i].body.unfiltered == Some(true)
                },
                Err(e) => batched_failure(self.spec_config(), Endpoint::CommitHashToLocation, hgids@.len(), e),
            },
    {
        let reqs = self.plan_batched(Endpoint::CommitHashToLocation, hgids, client_info)?;
        let out = with_bodies(reqs, |hgids: Vec<HgId>| -> (r: CommitHashToLocationRequestBatch)
            ensures
                r.hgids == hgids,
                ids_view(r.master_heads@) == ids_view(master_heads@),
                r.unfiltered == Some(true),
            { CommitHashToLocationRequestBatch { master_heads: copy_ids(&master_heads), hgids, unfiltered: Some(true) } });
        Ok(out)
    }

    /// The requests that complete hash prefixes: one per batch.
    pub fn plan_hash_lookup<R>(&self, requests: Vec<R>, client_info: Option<String>) -> (res: Result<Vec<PreparedRequest<Batch<R>>>, SaplingRemoteApiError>)
        ensures
            match res {
                Ok(reqs) => is_body_plan(reqs@, self.spec_config(), Endpoint::CommitHashLookup, requests@, opt_view(client_info), |b: Batch<R>| b.batch@),
                Err(e) => batched_failure(self.spec_config(), Endpoint::CommitHashLookup, requests@.len(), e),
            },
    {
        let reqs = self.plan_batched(Endpoint::CommitHashLookup, requests, client_info)?;
        let out = with_bodies(reqs, |batch: Vec<R>| -> (r: Batch<R>)
            ensures
                r.batch == batch,
            { Batch { batch } });
        Ok(out)
    }

    /// The requests that look `items` up in bubble `bubble_id`, copying
    /// from bubble `copy_from_bubble_id`: one per batch, each a lookup
    /// request per id in order.
    pub fn plan_lookup(&self, items: Vec<AnyId>, bubble_id: Option<u64>, copy_from_bubble_id: Option<u64>, client_info: Option<String>) -> (res: Result<Vec<PreparedRequest<Batch<LookupRequest>>>, SaplingRemoteApiError>)
        ensures
            match res {
                Ok(reqs) => {
                    &&& is_body_plan(reqs@, self.spec_config(), Endpoint::Lookup, items@, opt_view(client_info), |b: Batch<LookupRequest>| b.batch@.map_values(|l: LookupRequest| l.id))
                    &&& forall|i: int, j: int| 0 <= i < reqs@.len() && 0 <= j < (#[trigger] reqs@[i]).body.batch@.len() ==>
                        (#[trigger] reqs@[i].body.batch@[j]).bubble_id == bubble_id && reqs@[i].body.batch@[j].copy_from_bubble_id == copy_from_bubble_id
                },
                Err(e) => batched_failure(self.spec_config(), Endpoint::Lookup, items@.len(), e),
            },
    {
        let reqs = self.plan_batched(Endpoint::Lookup, items, client_info)?;
        let out = with_bodies(reqs, |ids: Vec<AnyId>| -> (r: Batch<LookupRequest>)
            ensures
                r.batch@.map_values(|l: LookupRequest| l.id) == ids@,
                forall|j: int| 0 <= j < r.batch@.len() ==> (#[trigger] r.batch@[j]).bubble_id == bubble_id
                    && r.batch@[j].copy_from_bubble_id == copy_from_bubble_id,
            {
                let b = lookup_requests(ids, bubble_id, copy_from_bubble_id);
                assert(b.batch@.map_values(|l: LookupRequest| l.id) =~= ids@);
                b
            });
        Ok(out)
    }

    /// The requests that upload hg filenodes: one per batch, each a
    /// filenode request per item in order.
    pub fn plan_upload_filenodes<D>(&self, items: Vec<D>, client_info: Option<String>) -> (res: Result<Vec<PreparedRequest<Batch<UploadHgFilenodeRequest<D>>>>, SaplingRemoteApiError>)
        ensures
            match res {
                Ok(reqs) => is_body_plan(reqs@, self.spec_config(), Endpoint::UploadFilenodes, items@, opt_view(client_info), |b: Batch<UploadHgFilenodeRequest<D>>| b.batch@.map_values(|r: UploadHgFilenodeRequest<D>| r.data)),
                Err(e) => batched_failure(self.spec_config(), Endpoint::UploadFilenodes, items@.len(), e),
            },
    {
        let reqs = self.plan_batched(Endpoint::UploadFilenodes, items, client_info)?;
        let out = with_bodies(reqs, |items: Vec<D>| -> (r: Batch<UploadHgFilenodeRequest<D>>)
            ensures
                r.batch@.map_values(|r: UploadHgFilenodeRequest<D>| r.data) == items@,
            {
                let b = filenode_requests(items);
                assert(b.batch@.map_values(|r: UploadHgFilenodeRequest<D>| r.data) =~= items@);
                b
            });
        Ok(out)
    }

    /// The requests that upload trees: one per batch, each a tree request
    /// per entry in order.
    pub fn plan_upload_trees<E>(&self, items: Vec<E>, client_info: Option<String>) -> (res: Result<Vec<PreparedRequest<Batch<UploadTreeRequest<E>>>>, SaplingRemoteApiError>)
        ensures
            match res {
                Ok(reqs) => is_body_plan(reqs@, self.spec_config(), Endpoint::UploadTrees, items@, opt_view(client_info), |b: Batch<UploadTreeRequest<E>>| b.batch@.map_values(|r: UploadTreeRequest<E>| r.entry)),
                Err(e) => batched_failure(self.spec_config(), Endpoint::UploadTrees, items@.len(), e),
            },
    {
        let reqs = self.plan_batched(Endpoint::UploadTrees, items, client_info)?;
        let out = with_bodies(reqs, |items: Vec<E>| -> (r: Batch<UploadTreeRequest<E>>)
            ensures
                r.batch@.map_values(|r: UploadTreeRequest<E>| r.entry) == items@,
            {
                let b = tree_upload_requests(items);
                assert(b.batch@.map_values(|r: UploadTreeRequest<E>| r.entry) =~= items@);
                b
            });
        Ok(out)
    }

    /// The requests that fetch the mutations of `commits`: one per batch.
    pub fn plan_commit_mutations(&self, commits: Vec<HgId>, client_info: Option<String>) -> (res: Result<Vec<PreparedRequest<CommitMutationsRequest>>, SaplingRemoteApiError>)
        requires
            self.spec_config().max_commit_mutations_per_batch != Some(0usize),
        ensures
            match res {
                Ok(reqs) => is_body_plan(reqs@, self.spec_config(), Endpoint::CommitMutations, commits@, opt_view(client_info), |b: CommitMutationsRequest| b.commits@),
                Err(e) => batched_failure(self.spec_config(), Endpoint::CommitMutations, commits@.len(), e),
            },
    {
        let reqs = self.plan_batched(Endpoint::CommitMutations, commits, client_info)?;
        let out = with_bodies(reqs, |commits: Vec<HgId>| -> (r: CommitMutationsRequest)
            ensures
                r.commits == commits,
            { CommitMutationsRequest { commits } });
        Ok(out)
    }


    /// The one request of a call to `endpoint`, carrying `body`.
    fn plan_with_body<B>(&self, endpoint: Endpoint, body: B, client_info: Option<String>) -> (res: Result<PreparedRequest<B>, SaplingRemoteApiError>)
        ensures
            match res {
                Ok(p) => is_single_request(p, self.spec_config(), endpoint, opt_view(client_info)) && p.body == body,
                Err(e) => endpoint_url(self.spec_config(), endpoint) is None && e is Url,
            },
    {
        let request = self.request_for(endpoint, client_info)?;
        Ok(PreparedRequest { request, body })
    }

    /// The request that uploads `changesets` with their `mutations`: none
    /// when there are no changesets, whatever the mutations.
    pub fn plan_upload_changesets<C, M>(&self, changesets: Vec<C>, mutations: Vec<M>, client_info: Option<String>) -> (res: Result<Option<PreparedRequest<UploadHgChangesetsRequest<C, M>>>, SaplingRemoteApiError>)
        ensures
            match res {
                Ok(None) => changesets@.len() == 0,
                Ok(Some(p)) => changesets@.len() > 0 && is_single_request(p, self.spec_config(), Endpoint::UploadChangesets, opt_view(client_info))
                    && p.body.changesets == changesets && p.body.mutations == mutations,
                Err(e) => changesets@.len() > 0 && endpoint_url(self.spec_config(), Endpoint::UploadChangesets) is None && e is Url,
            },
    {
        if changesets.len() == 0 {
            return Ok(None);
        }
        let p = self.plan_with_body(Endpoint::UploadChangesets, UploadHgChangesetsRequest { changesets, mutations }, client_info)?;
        Ok(Some(p))
    }

    /// The request that asks which files of `commit` have a basename
    /// ending in one of `suffixes`: none when there are no suffixes.
    pub fn plan_suffix_query<C>(&self, commit: C, suffixes: Vec<String>, client_info: Option<String>) -> (res: Result<Option<PreparedRequest<SuffixQueryRequest<C>>>, SaplingRemoteApiError>)
        ensures
            match res {
                Ok(None) => suffixes@.len() == 0,
                Ok(Some(p)) => suffixes@.len() > 0 && is_single_request(p, self.spec_config(), Endpoint::SuffixQuery, opt_view(client_info))
                    && p.body.commit == commit && p.body.basename_suffixes == suffixes,
                Err(e) => suffixes@.len() > 0 && endpoint_url(self.spec_config(), Endpoint::SuffixQuery) is None && e is Url,
            },
    {
        if suffixes.len() == 0 {
            return Ok(None);
        }
        let p = self.plan_with_body(Endpoint::SuffixQuery, SuffixQueryRequest { commit, basename_suffixes: suffixes }, client_info)?;
        Ok(Some(p))
    }

    /// The request that lands the stack between `base` and `head` onto
    /// `bookmark`, with one push variable per pair.
    pub fn plan_land_stack(&self, bookmark: String, head: HgId, base: HgId, pushvars: Vec<(String, String)>, client_info: Option<String>) -> (res: Result<PreparedRequest<LandStackRequest>, SaplingRemoteApiError>)
        ensures
            match res {
                Ok(p) => is_single_request(p, self.spec_config(), Endpoint::LandStack, opt_view(client_info))
                    && p.body.bookmark == bookmark && p.body.head == head && p.body.base == base
                    && are_push_vars(p.body.pushvars@, pushvars@),
                Err(e) => endpoint_url(self.spec_config(), Endpoint::LandStack) is None && e is Url,
            },
    {
        let vars = push_vars(pushvars);
        self.plan_with_body(Endpoint::LandStack, LandStackRequest { bookmark, head, base, pushvars: vars }, client_info)
    }

    /// The request that moves `bookmark` from `from` to `to`, with one
    /// push variable per pair.
    pub fn plan_set_bookmark(&self, bookmark: String, to: Option<HgId>, from: Option<HgId>, pushvars: Vec<(String, String)>, client_info: Option<String>) -> (res: Result<PreparedRequest<SetBookmarkRequest>, SaplingRemoteApiError>)
        ensures
            match res {
                Ok(p) => is_single_request(p, self.spec_config(), Endpoint::SetBookmark, opt_view(client_info))
                    && p.body.bookmark == bookmark && p.body.to == to && p.body.from == from
                    && are_push_vars(p.body.pushvars@, pushvars@),
                Err(e) => endpoint_url(self.spec_config(), Endpoint::SetBookmark) is None && e is Url,
            },
    {
        let vars = push_vars(pushvars);
        self.plan_with_body(Endpoint::SetBookmark, SetBookmarkRequest { bookmark, to, from, pushvars: vars }, client_info)
    }

    /// The request for the commit graph between `heads` and `common`.
    pub fn plan_commit_graph(&self, heads: Vec<HgId>, common: Vec<HgId>, client_info: Option<String>) -> (res: Result<PreparedRequest<CommitGraphRequest>, SaplingRemoteApiError>)
        ensures
            match res {
                Ok(p) => is_single_request(p, self.spec_config(), Endpoint::CommitGraph, opt_view(client_info))
                    && p.body.heads == heads && p.body.common == common,
                Err(e) => endpoint_url(self.spec_config(), Endpoint::CommitGraph) is None && e is Url,
            },
    {
        self.plan_with_body(Endpoint::CommitGraph, CommitGraphRequest { heads, common }, client_info)
    }

    /// The request for the commit graph segments between `heads` and
    /// `common`.
    pub fn plan_commit_graph_segments(&self, heads: Vec<HgId>, common: Vec<HgId>, client_info: Option<String>) -> (res: Result<PreparedRequest<CommitGraphSegmentsRequest>, SaplingRemoteApiError>)
        ensures
            match res {
                Ok(p) => is_single_request(p, self.spec_config(), Endpoint::CommitGraphSegments, opt_view(client_info))
                    && p.body.heads == heads && p.body.common == common,
                Err(e) => endpoint_url(self.spec_config(), Endpoint::CommitGraphSegments) is None && e is Url,
            },
    {
        self.plan_with_body(Endpoint::CommitGraphSegments, CommitGraphSegmentsRequest { heads, common }, client_info)
    }

    /// The request that resolves `bookmarks`.
    pub fn plan_bookmarks(&self, bookmarks: Vec<String>, client_info: Option<String>) -> (res: Result<PreparedRequest<BookmarkRequest>, SaplingRemoteApiError>)
        ensures
            match res {
                Ok(p) => is_single_request(p, self.spec_config(), Endpoint::Bookmarks, opt_view(client_info))
                    && p.body.bookmarks == bookmarks,
                Err(e) => endpoint_url(self.spec_config(), Endpoint::Bookmarks) is None && e is Url,
            },
    {
        self.plan_with_body(Endpoint::Bookmarks, BookmarkRequest { bookmarks }, client_info)
    }

    /// The request for the revlog data of commits `hgids`.
    pub fn plan_commit_revlog_data(&self, hgids: Vec<HgId>, client_info: Option<String>) -> (res: Result<PreparedRequest<CommitRevlogDataRequest>, SaplingRemoteApiError>)
        ensures
            match res {
                Ok(p) => is_single_request(p, self.spec_config(), Endpoint::CommitRevlogData, opt_view(client_info))
                    && p.body.hgids == hgids,
                Err(e) => endpoint_url(self.spec_config(), Endpoint::CommitRevlogData) is None && e is Url,
            },
    {
        self.plan_with_body(Endpoint::CommitRevlogData, CommitRevlogDataRequest { hgids }, client_info)
    }

    /// The request that prepares an ephemeral bubble living
    /// `custom_duration_secs` seconds, with `labels`.
    pub fn plan_ephemeral_prepare(&self, custom_duration_secs: Option<u64>, labels: Option<Vec<String>>, client_info: Option<String>) -> (res: Result<PreparedRequest<EphemeralPrepareRequest>, SaplingRemoteApiError>)
        ensures
            match res {
                Ok(p) => is_single_request(p, self.spec_config(), Endpoint::EphemeralPrepare, opt_view(client_info))
                    && p.body.custom_duration_secs == custom_duration_secs && p.body.labels == labels,
                Err(e) => endpoint_url(self.spec_config(), Endpoint::EphemeralPrepare) is None && e is Url,
            },
    {
        self.plan_with_body(Endpoint::EphemeralPrepare, EphemeralPrepareRequest { custom_duration_secs, labels }, client_info)
    }

    /// The request that reads commit cloud workspace `workspace` of
    /// repository `reponame`.
    pub fn plan_cloud_workspace(&self, workspace: String, reponame: String, client_info: Option<String>) -> (res: Result<PreparedRequest<CloudWorkspaceRequest>, SaplingRemoteApiError>)
        ensures
            match res {
                Ok(p) => is_single_request(p, self.spec_config(), Endpoint::CloudWorkspace, opt_view(client_info))
                    && p.body.workspace == workspace && p.body.reponame == reponame,
                Err(e) => endpoint_url(self.spec_config(), Endpoint::CloudWorkspace) is None && e is Url,
            },
    {
        self.plan_with_body(Endpoint::CloudWorkspace, CloudWorkspaceRequest { workspace, reponame }, client_info)
    }

    /// The request that pulls lazily what lies between `common` and
    /// `missing`.
    pub fn plan_pull_lazy(&self, common: Vec<HgId>, missing: Vec<HgId>, client_info: Option<String>) -> (res: Result<PreparedRequest<PullLazyRequest>, SaplingRemoteApiError>)
        ensures
            match res {
                Ok(p) => is_single_request(p, self.spec_config(), Endpoint::PullLazy, opt_view(client_info))
                    && p.body.common == common && p.body.missing == missing,
                Err(e) => endpoint_url(self.spec_config(), Endpoint::PullLazy) is None && e is Url,
            },
    {
        self.plan_with_body(Endpoint::PullLazy, PullLazyRequest { common, missing }, client_info)
    }

    /// The request that pulls master forward from `old_master` to
    /// `new_master`.
    pub fn plan_pull_fast_forward(&self, old_master: HgId, new_master: HgId, client_info: Option<String>) -> (res: Result<PreparedRequest<PullFastForwardRequest>, SaplingRemoteApiError>)
        ensures
            match res {
                Ok(p) => is_single_request(p, self.spec_config(), Endpoint::PullFastForward, opt_view(client_info))
                    && p.body.old_master == old_master && p.body.new_master == new_master,
                Err(e) => endpoint_url(self.spec_config(), Endpoint::PullFastForward) is None && e is Url,
            },
    {
        self.plan_with_body(Endpoint::PullFastForward, PullFastForwardRequest { old_master, new_master }, client_info)
    }

}

} // verus!
