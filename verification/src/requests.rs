//! The bodies of the requests that the client sends. Values the client
//! only passes along (changesets, mutations, commit ids and the like) are
//! type parameters.

use vstd::prelude::*;
use crate::types::AnyId;
use crate::types::FileSpec;
use crate::types::HgId;
use crate::types::Key;
use crate::types::PushVar;
use crate::types::TreeAttributes;

verus! {

/// A list of request items sent together.
pub struct Batch<T> {
    pub batch: Vec<T>,
}

/// Trees to fetch, with the attributes wanted for each.
pub struct TreeRequest {
    pub keys: Vec<Key>,
    pub attributes: TreeAttributes,
}

/// Files to fetch.
pub struct FileRequest {
    pub reqs: Vec<FileSpec>,
}

/// Files whose history to fetch, up to `length` entries each.
pub struct HistoryRequest {
    pub keys: Vec<Key>,
    pub length: Option<u32>,
}

/// Files to blame.
pub struct BlameRequest {
    pub files: Vec<Key>,
}

/// Commits whose ids to translate into `scheme`, between repositories.
pub struct CommitTranslateIdRequest<C, S> {
    pub commits: Vec<C>,
    pub scheme: S,
    pub from_repo: Option<String>,
    pub to_repo: Option<String>,
}

/// Commit locations to turn into hashes.
pub struct CommitLocationToHashRequestBatch<R> {
    pub requests: Vec<R>,
}

/// Commit hashes to locate relative to the master heads.
pub struct CommitHashToLocationRequestBatch {
    pub master_heads: Vec<HgId>,
    pub hgids: Vec<HgId>,
    pub unfiltered: Option<bool>,
}

/// One id to look up, in a bubble, possibly copied from another bubble.
pub struct LookupRequest {
    pub id: AnyId,
    pub bubble_id: Option<u64>,
    pub copy_from_bubble_id: Option<u64>,
}

/// One filenode to upload.
pub struct UploadHgFilenodeRequest<D> {
    pub data: D,
}

/// One tree to upload.
pub struct UploadTreeRequest<E> {
    pub entry: E,
}

/// Commits whose mutations to fetch.
pub struct CommitMutationsRequest {
    pub commits: Vec<HgId>,
}

/// Changesets and their mutations to upload.
pub struct UploadHgChangesetsRequest<C, M> {
    pub changesets: Vec<C>,
    pub mutations: Vec<M>,
}

/// A stack between `base` and `head` to land onto `bookmark`.
pub struct LandStackRequest {
    pub bookmark: String,
    pub head: HgId,
    pub base: HgId,
    pub pushvars: Vec<PushVar>,
}

/// A bookmark to move from `from` to `to`.
pub struct SetBookmarkRequest {
    pub bookmark: String,
    pub to: Option<HgId>,
    pub from: Option<HgId>,
    pub pushvars: Vec<PushVar>,
}

/// The commit graph between `heads` and `common`.
pub struct CommitGraphRequest {
    pub heads: Vec<HgId>,
    pub common: Vec<HgId>,
}

/// The commit graph segments between `heads` and `common`.
pub struct CommitGraphSegmentsRequest {
    pub heads: Vec<HgId>,
    pub common: Vec<HgId>,
}

/// Bookmarks to resolve.
pub struct BookmarkRequest {
    pub bookmarks: Vec<String>,
}

/// Commits whose revlog data to fetch.
pub struct CommitRevlogDataRequest {
    pub hgids: Vec<HgId>,
}

/// A new ephemeral bubble, with its lifetime in seconds and its labels.
pub struct EphemeralPrepareRequest {
    pub custom_duration_secs: Option<u64>,
    pub labels: Option<Vec<String>>,
}

/// A commit cloud workspace to read.
pub struct CloudWorkspaceRequest {
    pub workspace: String,
    pub reponame: String,
}

/// What to pull lazily: what the client has and what it lacks.
pub struct PullLazyRequest {
    pub common: Vec<HgId>,
    pub missing: Vec<HgId>,
}

/// A fast-forward of master to pull.
pub struct PullFastForwardRequest {
    pub old_master: HgId,
    pub new_master: HgId,
}

/// A Bonsai changeset to upload.
pub struct UploadBonsaiChangesetRequest<C> {
    pub changeset: C,
}

} // verus!
