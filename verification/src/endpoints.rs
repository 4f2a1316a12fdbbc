//! The server endpoints and how requests to each are formed.

use vstd::prelude::*;
use crate::config::Config;
use crate::config::Method;
use crate::batching::batches_of;
use crate::batching::lemma_batch_sizes;

verus! {

/// Keys per request for lookups.
pub const MAX_CONCURRENT_LOOKUPS_PER_REQUEST: usize = 10000;
/// Filenodes per upload request.
pub const MAX_CONCURRENT_UPLOAD_FILENODES_PER_REQUEST: usize = 10000;
/// Trees per upload request.
pub const MAX_CONCURRENT_UPLOAD_TREES_PER_REQUEST: usize = 1000;
/// File uploads in flight at once.
pub const MAX_CONCURRENT_FILE_UPLOADS: usize = 1000;
/// Hash prefixes per lookup request.
pub const MAX_CONCURRENT_HASH_LOOKUPS_PER_REQUEST: usize = 1000;
/// Files per blame request.
pub const MAX_CONCURRENT_BLAMES_PER_REQUEST: usize = 10;

/// The endpoints of the remote API.
#[derive(Clone, Copy, Debug)]
pub enum Endpoint {
    HealthCheck,
    Capabilities,
    Files,
    History,
    Trees,
    CommitRevlogData,
    CloneData,
    PullFastForward,
    PullLazy,
    CommitLocationToHash,
    CommitHashToLocation,
    CommitHashLookup,
    CommitGraph,
    CommitGraphSegments,
    CommitMutations,
    CommitTranslateId,
    Bookmarks,
    SetBookmark,
    LandStack,
    Lookup,
    Upload,
    UploadFilenodes,
    UploadTrees,
    UploadChangesets,
    UploadBonsaiChangeset,
    EphemeralPrepare,
    FetchSnapshot,
    AlterSnapshot,
    DownloadFile,
    Blame,
    CloudWorkspace,
    CloudUpdateReferences,
    CloudReferences,
    SuffixQuery,
}

impl Endpoint {
    /// The endpoint's path, relative to the repository's URL (or, for the
    /// health check, to the server's).
    pub open spec fn spec_path(self) -> Seq<char> {
        match self {
            Endpoint::HealthCheck => "health_check"@,
            Endpoint::Capabilities => "capabilities"@,
            Endpoint::Files => "files2"@,
            Endpoint::History => "history"@,
            Endpoint::Trees => "trees"@,
            Endpoint::CommitRevlogData => "commit/revlog_data"@,
            Endpoint::CloneData => "clone"@,
            Endpoint::PullFastForward => "pull_fast_forward_master"@,
            Endpoint::PullLazy => "pull_lazy"@,
            Endpoint::CommitLocationToHash => "commit/location_to_hash"@,
            Endpoint::CommitHashToLocation => "commit/hash_to_location"@,
            Endpoint::CommitHashLookup => "commit/hash_lookup"@,
            Endpoint::CommitGraph => "commit/graph_v2"@,
            Endpoint::CommitGraphSegments => "commit/graph_segments"@,
            Endpoint::CommitMutations => "commit/mutations"@,
            Endpoint::CommitTranslateId => "commit/translate_id"@,
            Endpoint::Bookmarks => "bookmarks"@,
            Endpoint::SetBookmark => "bookmarks/set"@,
            Endpoint::LandStack => "land"@,
            Endpoint::Lookup => "lookup"@,
            Endpoint::Upload => "upload/"@,
            Endpoint::UploadFilenodes => "upload/filenodes"@,
            Endpoint::UploadTrees => "upload/trees"@,
            Endpoint::UploadChangesets => "upload/changesets"@,
            Endpoint::UploadBonsaiChangeset => "upload/changeset/bonsai"@,
            Endpoint::EphemeralPrepare => "ephemeral/prepare"@,
            Endpoint::FetchSnapshot => "snapshot"@,
            Endpoint::AlterSnapshot => "snapshot/alter"@,
            Endpoint::DownloadFile => "download/file"@,
            Endpoint::Blame => "blame"@,
            Endpoint::CloudWorkspace => "cloud/workspace"@,
            Endpoint::CloudUpdateReferences => "cloud/update_references"@,
            Endpoint::CloudReferences => "cloud/references"@,
            Endpoint::SuffixQuery => "suffix_query"@,
        }
    }

    /// The endpoint's path.
    pub fn path(self) -> (p: &'static str)
        ensures
            p@ == self.spec_path(),
    {
        match self {
            Endpoint::HealthCheck => "health_check",
            Endpoint::Capabilities => "capabilities",
            Endpoint::Files => "files2",
            Endpoint::History => "history",
            Endpoint::Trees => "trees",
            Endpoint::CommitRevlogData => "commit/revlog_data",
            Endpoint::CloneData => "clone",
            Endpoint::PullFastForward => "pull_fast_forward_master",
            Endpoint::PullLazy => "pull_lazy",
            Endpoint::CommitLocationToHash => "commit/location_to_hash",
            Endpoint::CommitHashToLocation => "commit/hash_to_location",
            Endpoint::CommitHashLookup => "commit/hash_lookup",
            Endpoint::CommitGraph => "commit/graph_v2",
            Endpoint::CommitGraphSegments => "commit/graph_segments",
            Endpoint::CommitMutations => "commit/mutations",
            Endpoint::CommitTranslateId => "commit/translate_id",
            Endpoint::Bookmarks => "bookmarks",
            Endpoint::SetBookmark => "bookmarks/set",
            Endpoint::LandStack => "land",
            Endpoint::Lookup => "lookup",
            Endpoint::Upload => "upload/",
            Endpoint::UploadFilenodes => "upload/filenodes",
            Endpoint::UploadTrees => "upload/trees",
            Endpoint::UploadChangesets => "upload/changesets",
            Endpoint::UploadBonsaiChangeset => "upload/changeset/bonsai",
            Endpoint::EphemeralPrepare => "ephemeral/prepare",
            Endpoint::FetchSnapshot => "snapshot",
            Endpoint::AlterSnapshot => "snapshot/alter",
            Endpoint::DownloadFile => "download/file",
            Endpoint::Blame => "blame",
            Endpoint::CloudWorkspace => "cloud/workspace",
            Endpoint::CloudUpdateReferences => "cloud/update_references",
            Endpoint::CloudReferences => "cloud/references",
            Endpoint::SuffixQuery => "suffix_query",
        }
    }

    /// The health check is the one endpoint outside any repository.
    pub open spec fn spec_repoless(self) -> bool {
        self is HealthCheck
    }

    /// The HTTP method: `GET` for the health check and the capabilities,
    /// `PUT` for file uploads, `POST` for everything else.
    pub open spec fn spec_method(self) -> Method {
        match self {
            Endpoint::HealthCheck => Method::Get,
            Endpoint::Capabilities => Method::Get,
            Endpoint::Upload => Method::Put,
            _ => Method::Post,
        }
    }

    /// The HTTP method of requests to the endpoint.
    pub fn method(self) -> (m: Method)
        ensures
            m == self.spec_method(),
    {
        match self {
            Endpoint::HealthCheck => Method::Get,
            Endpoint::Capabilities => Method::Get,
            Endpoint::Upload => Method::Put,
            _ => Method::Post,
        }
    }

    /// Endpoints whose server answers only once all the work is done, or
    /// streams at an uneven pace: the minimum transfer speed is switched off
    /// for them so that slow answers are not cut short.
    pub open spec fn spec_waits_for_completion(self) -> bool {
        ||| self is UploadChangesets
        ||| self is SetBookmark
        ||| self is LandStack
        ||| self is CommitGraph
        ||| self is CommitGraphSegments
    }

    /// Whether the minimum transfer speed is switched off for the endpoint.
    pub fn waits_for_completion(self) -> (b: bool)
        ensures
            b == self.spec_waits_for_completion(),
    {
        match self {
            Endpoint::UploadChangesets => true,
            Endpoint::SetBookmark => true,
            Endpoint::LandStack => true,
            Endpoint::CommitGraph => true,
            Endpoint::CommitGraphSegments => true,
            _ => false,
        }
    }

    /// The commit graph has a progress bar of its own and a small answer,
    /// so its response is asked for uncompressed.
    pub open spec fn spec_uncompressed(self) -> bool {
        self is CommitGraph
    }

    /// Endpoints that are not called at all for an empty list of inputs.
    pub open spec fn spec_skips_empty(self) -> bool {
        ||| self is Trees
        ||| self is Files
        ||| self is History
        ||| self is Blame
        ||| self is SuffixQuery
        ||| self is UploadChangesets
        ||| self is UploadFilenodes
        ||| self is UploadTrees
        ||| self is CommitLocationToHash
        ||| self is CommitHashToLocation
        ||| self is Lookup
    }

    /// Whether the endpoint is not called for an empty list of inputs.
    pub fn skips_empty(self) -> (b: bool)
        ensures
            b == self.spec_skips_empty(),
    {
        match self {
            Endpoint::Trees => true,
            Endpoint::Files => true,
            Endpoint::History => true,
            Endpoint::Blame => true,
            Endpoint::SuffixQuery => true,
            Endpoint::UploadChangesets => true,
            Endpoint::UploadFilenodes => true,
            Endpoint::UploadTrees => true,
            Endpoint::CommitLocationToHash => true,
            Endpoint::CommitHashToLocation => true,
            Endpoint::Lookup => true,
            _ => false,
        }
    }

    /// Endpoints whose inputs are split over several requests.
    pub open spec fn spec_batched(self) -> bool {
        ||| self is Trees
        ||| self is Files
        ||| self is History
        ||| self is Blame
        ||| self is CommitTranslateId
        ||| self is CommitLocationToHash
        ||| self is CommitHashToLocation
        ||| self is CommitHashLookup
        ||| self is Lookup
        ||| self is UploadFilenodes
        ||| self is UploadTrees
        ||| self is CommitMutations
    }

    /// Endpoints whose single-key requests carry a routing key, when the
    /// configuration asks for consistent routing.
    pub open spec fn spec_routed(self) -> bool {
        ||| self is Trees
        ||| self is Files
        ||| self is History
    }

    /// The most inputs per request for the endpoint.
    pub open spec fn spec_batch_size(self, c: Config) -> Option<usize> {
        match self {
            Endpoint::Trees => c.max_trees_per_batch,
            Endpoint::Files => c.max_files_per_batch,
            Endpoint::History => c.max_history_per_batch,
            Endpoint::Blame => Some(MAX_CONCURRENT_BLAMES_PER_REQUEST),
            Endpoint::CommitTranslateId => c.max_commit_translate_id_per_batch,
            Endpoint::CommitLocationToHash => c.max_location_to_hash_per_batch,
            Endpoint::CommitHashToLocation => c.max_location_to_hash_per_batch,
            Endpoint::CommitHashLookup => Some(MAX_CONCURRENT_HASH_LOOKUPS_PER_REQUEST),
            Endpoint::Lookup => Some(MAX_CONCURRENT_LOOKUPS_PER_REQUEST),
            Endpoint::UploadFilenodes => Some(MAX_CONCURRENT_UPLOAD_FILENODES_PER_REQUEST),
            Endpoint::UploadTrees => Some(MAX_CONCURRENT_UPLOAD_TREES_PER_REQUEST),
            Endpoint::CommitMutations => c.max_commit_mutations_per_batch,
            _ => None,
        }
    }

    /// The smallest multi-key batch for the endpoint: only fetches of
    /// trees, files and history use the configured minimum.
    pub open spec fn spec_min_batch_size(self, c: Config) -> Option<usize> {
        if self.spec_routed() {
            c.min_batch_size
        } else {
            None
        }
    }

    /// The most inputs per request for the endpoint.
    pub fn batch_size(self, c: &Config) -> (n: Option<usize>)
        ensures
            n == self.spec_batch_size(*c),
    {
        match self {
            Endpoint::Trees => c.max_trees_per_batch,
            Endpoint::Files => c.max_files_per_batch,
            Endpoint::History => c.max_history_per_batch,
            Endpoint::Blame => Some(MAX_CONCURRENT_BLAMES_PER_REQUEST),
            Endpoint::CommitTranslateId => c.max_commit_translate_id_per_batch,
            Endpoint::CommitLocationToHash => c.max_location_to_hash_per_batch,
            Endpoint::CommitHashToLocation => c.max_location_to_hash_per_batch,
            Endpoint::CommitHashLookup => Some(MAX_CONCURRENT_HASH_LOOKUPS_PER_REQUEST),
            Endpoint::Lookup => Some(MAX_CONCURRENT_LOOKUPS_PER_REQUEST),
            Endpoint::UploadFilenodes => Some(MAX_CONCURRENT_UPLOAD_FILENODES_PER_REQUEST),
            Endpoint::UploadTrees => Some(MAX_CONCURRENT_UPLOAD_TREES_PER_REQUEST),
            Endpoint::CommitMutations => c.max_commit_mutations_per_batch,
            _ => None,
        }
    }

    /// The smallest multi-key batch for the endpoint.
    pub fn min_batch_size(self, c: &Config) -> (n: Option<usize>)
        ensures
            n == self.spec_min_batch_size(*c),
    {
        match self {
            Endpoint::Trees => c.min_batch_size,
            Endpoint::Files => c.min_batch_size,
            Endpoint::History => c.min_batch_size,
            _ => None,
        }
    }
}


/// Whether the endpoint fetches trees, files or history.
pub open spec fn is_fetch(e: Endpoint) -> bool {
    e is Trees || e is Files || e is History
}

/// Only fetches of trees, files and history use the configured minimum
/// batch size; every other endpoint has none.
pub proof fn lemma_min_batch_size_only_for_fetches(e: Endpoint, c: Config)
    ensures
        is_fetch(e) ==> e.spec_min_batch_size(c) == c.min_batch_size,
        !is_fetch(e) ==> e.spec_min_batch_size(c) is None,
{
}

/// Any endpoint but the fetches splits its inputs into the plain
/// consecutive chunks of its batch size, whatever minimum batch size is
/// configured: every batch but the last holds exactly that many inputs.
pub proof fn lemma_other_endpoints_chunk_plainly<T>(e: Endpoint, c: Config, keys: Seq<T>, n: usize)
    requires
        !is_fetch(e),
        e.spec_batch_size(c) == Some(n),
        n > 0,
    ensures
        batches_of(keys, e.spec_batch_size(c), e.spec_min_batch_size(c)) == batches_of(keys, Some(n), None),
        forall|i: int| 0 <= i < batches_of(keys, e.spec_batch_size(c), e.spec_min_batch_size(c)).len() - 1
            ==> #[trigger] batches_of(keys, e.spec_batch_size(c), e.spec_min_batch_size(c))[i].len() == n,
{
    lemma_min_batch_size_only_for_fetches(e, c);
    lemma_batch_sizes(keys, n, None);
}

/// The requests that the server answers only once its work is done, or at
/// an uneven pace, are changeset uploads, bookmark moves, landings and the
/// commit graph and its segments; no other endpoint is among them.
pub proof fn lemma_waiting_endpoints(e: Endpoint)
    ensures
        e.spec_waits_for_completion() <==> (e is UploadChangesets || e is SetBookmark || e is LandStack
            || e is CommitGraph || e is CommitGraphSegments),
{
}

/// The health check and the capabilities are read with `GET`, file
/// contents are uploaded with `PUT`, and every other endpoint, downloads
/// included, is requested with `POST`.
pub proof fn lemma_endpoint_methods(e: Endpoint)
    ensures
        (e is HealthCheck || e is Capabilities) ==> e.spec_method() == Method::Get,
        e is Upload ==> e.spec_method() == Method::Put,
        !(e is HealthCheck || e is Capabilities || e is Upload) ==> e.spec_method() == Method::Post,
        e is DownloadFile ==> e.spec_method() == Method::Post,
{
}

} // verus!
