//! The values that requests and responses carry, as the client's logic
//! reads them.

use vstd::prelude::*;
use crate::hex::hex_lower;
use crate::hex::to_hex_lower;

verus! {

/// Whether two byte arrays hold the same bytes.
pub fn same_bytes<const N: usize>(a: &[u8; N], b: &[u8; N]) -> (r: bool)
    ensures
        r == (a@ == b@),
{
    let mut i: usize = 0;
    while i < N
        invariant
            i <= N,
            a@.len() == N,
            b@.len() == N,
            forall|j: int| 0 <= j < i ==> a@[j] == b@[j],
        decreases N - i,
    {
        if a[i] != b[i] {
            return false;
        }
        i = i + 1;
    }
    assert(a@ =~= b@);
    true
}

/// A Mercurial node hash.
#[derive(Debug)]
pub struct HgId {
    bytes: [u8; 20],
}

impl View for HgId {
    type V = Seq<u8>;

    open spec fn view(&self) -> Seq<u8> {
        self.spec_bytes()
    }
}

impl HgId {
    /// The twenty bytes of the hash.
    pub closed spec fn spec_bytes(&self) -> Seq<u8> {
        self.bytes@
    }

    /// A node hash has twenty bytes.
    pub proof fn lemma_len(&self)
        ensures
            self@.len() == 20,
    {
    }

    /// The hash with the given bytes.
    pub fn from_byte_array(bytes: [u8; 20]) -> (h: HgId)
        ensures
            h@ == bytes@,
    {
        HgId { bytes }
    }

    /// The bytes of the hash.
    pub fn as_byte_array(&self) -> (r: &[u8; 20])
        ensures
            r@ == self@,
    {
        &self.bytes
    }

    /// The hash in lower-case hex, as it prints.
    pub fn to_hex(&self) -> (s: String)
        ensures
            s@ == hex_lower(self@),
    {
        to_hex_lower(self.bytes.as_slice())
    }

    /// Whether both hashes are the same.
    pub fn same_as(&self, other: &HgId) -> (r: bool)
        ensures
            r == (self@ == other@),
    {
        same_bytes(&self.bytes, &other.bytes)
    }

    /// A copy of the hash.
    pub fn duplicate(&self) -> (h: HgId)
        ensures
            h@ == self@,
    {
        HgId { bytes: self.bytes }
    }
}

/// A file or tree path and the node hash at that path.
#[derive(Debug)]
pub struct Key {
    pub path: String,
    pub hgid: HgId,
}

/// Which parts of a file a file request asks for.
#[derive(Debug)]
pub struct FileAttributes {
    pub content: bool,
    pub aux_data: bool,
}

/// A file request: the file and the parts of it that are wanted.
#[derive(Debug)]
pub struct FileSpec {
    pub key: Key,
    pub attrs: FileAttributes,
}

/// Which parts of a tree a tree request asks for.
#[derive(Clone, Copy, Debug)]
pub struct TreeAttributes {
    pub manifest_blob: bool,
    pub parents: bool,
    pub child_metadata: bool,
    pub augmented_trees: bool,
}

impl TreeAttributes {
    /// The attributes asked for when none are given: the manifest blob and
    /// the parents.
    pub open spec fn spec_default() -> TreeAttributes {
        TreeAttributes { manifest_blob: true, parents: true, child_metadata: false, augmented_trees: false }
    }

    /// The attributes asked for when none are given.
    pub fn default_attributes() -> (a: TreeAttributes)
        ensures
            a == TreeAttributes::spec_default(),
    {
        TreeAttributes { manifest_blob: true, parents: true, child_metadata: false, augmented_trees: false }
    }
}

/// The bytes of each hash in a list of node hashes.
pub open spec fn ids_view(ids: Seq<HgId>) -> Seq<Seq<u8>> {
    ids.map_values(|h: HgId| h@)
}

/// A copy of a list of node hashes.
pub fn copy_ids(ids: &Vec<HgId>) -> (res: Vec<HgId>)
    ensures
        ids_view(res@) == ids_view(ids@),
{
    let mut res: Vec<HgId> = Vec::new();
    for i in 0..ids.len()
        invariant
            res@.len() == i,
            forall|j: int| 0 <= j < i ==> (#[trigger] res@[j])@ == ids@[j]@,
    {
        res.push(ids[i].duplicate());
    }
    assert(ids_view(res@) =~= ids_view(ids@));
    res
}

/// The hash kinds under which file content can be addressed.
#[derive(Debug)]
pub enum AnyFileContentId {
    ContentId([u8; 32]),
    Sha1([u8; 20]),
    Sha256([u8; 32]),
    SeededBlake3([u8; 32]),
}

/// The ids that the server can look up.
#[derive(Debug)]
pub enum AnyId {
    AnyFileContentId(AnyFileContentId),
    HgFilenodeId(HgId),
    HgTreeId(HgId),
    HgChangesetId(HgId),
    BonsaiChangesetId([u8; 32]),
}

impl View for AnyFileContentId {
    /// The kind of hash, numbered in declaration order, and its bytes.
    type V = (nat, Seq<u8>);

    open spec fn view(&self) -> (nat, Seq<u8>) {
        match self {
            AnyFileContentId::ContentId(b) => (0, b@),
            AnyFileContentId::Sha1(b) => (1, b@),
            AnyFileContentId::Sha256(b) => (2, b@),
            AnyFileContentId::SeededBlake3(b) => (3, b@),
        }
    }
}

impl View for AnyId {
    /// The kind of id, numbered so that file content kinds come first in
    /// their own order, then the Mercurial and Bonsai kinds; and its bytes.
    type V = (nat, Seq<u8>);

    open spec fn view(&self) -> (nat, Seq<u8>) {
        match self {
            AnyId::AnyFileContentId(c) => c@,
            AnyId::HgFilenodeId(h) => (4, h@),
            AnyId::HgTreeId(h) => (5, h@),
            AnyId::HgChangesetId(h) => (6, h@),
            AnyId::BonsaiChangesetId(b) => (7, b@),
        }
    }
}

impl AnyFileContentId {
    /// The URL path segment that names the kind of hash in upload requests.
    pub open spec fn spec_kind_segment(&self) -> Seq<char> {
        match self {
            AnyFileContentId::ContentId(_) => "content_id/"@,
            AnyFileContentId::Sha1(_) => "sha1/"@,
            AnyFileContentId::Sha256(_) => "sha256/"@,
            AnyFileContentId::SeededBlake3(_) => "seeded_blake3/"@,
        }
    }

    /// The URL path segment that names the kind of hash in upload requests.
    pub fn kind_segment(&self) -> (s: &'static str)
        ensures
            s@ == self.spec_kind_segment(),
    {
        match self {
            AnyFileContentId::ContentId(_) => "content_id/",
            AnyFileContentId::Sha1(_) => "sha1/",
            AnyFileContentId::Sha256(_) => "sha256/",
            AnyFileContentId::SeededBlake3(_) => "seeded_blake3/",
        }
    }

    /// The hash in lower-case hex, as it prints.
    pub fn to_hex(&self) -> (s: String)
        ensures
            s@ == hex_lower(self@.1),
    {
        match self {
            AnyFileContentId::ContentId(b) => to_hex_lower(b.as_slice()),
            AnyFileContentId::Sha1(b) => to_hex_lower(b.as_slice()),
            AnyFileContentId::Sha256(b) => to_hex_lower(b.as_slice()),
            AnyFileContentId::SeededBlake3(b) => to_hex_lower(b.as_slice()),
        }
    }

    /// Whether both ids are the same.
    pub fn same_as(&self, other: &AnyFileContentId) -> (r: bool)
        ensures
            r == (self@ == other@),
    {
        match (self, other) {
            (AnyFileContentId::ContentId(a), AnyFileContentId::ContentId(b)) => same_bytes(a, b),
            (AnyFileContentId::Sha1(a), AnyFileContentId::Sha1(b)) => same_bytes(a, b),
            (AnyFileContentId::Sha256(a), AnyFileContentId::Sha256(b)) => same_bytes(a, b),
            (AnyFileContentId::SeededBlake3(a), AnyFileContentId::SeededBlake3(b)) => same_bytes(a, b),
            _ => false,
        }
    }

    /// A copy of the id.
    pub fn duplicate(&self) -> (c: AnyFileContentId)
        ensures
            c@ == self@,
    {
        match self {
            AnyFileContentId::ContentId(b) => AnyFileContentId::ContentId(*b),
            AnyFileContentId::Sha1(b) => AnyFileContentId::Sha1(*b),
            AnyFileContentId::Sha256(b) => AnyFileContentId::Sha256(*b),
            AnyFileContentId::SeededBlake3(b) => AnyFileContentId::SeededBlake3(*b),
        }
    }
}

impl AnyId {
    /// Whether both ids are the same.
    pub fn same_as(&self, other: &AnyId) -> (r: bool)
        ensures
            r == (self@ == other@),
    {
        match (self, other) {
            (AnyId::AnyFileContentId(a), AnyId::AnyFileContentId(b)) => a.same_as(b),
            (AnyId::HgFilenodeId(a), AnyId::HgFilenodeId(b)) => a.same_as(b),
            (AnyId::HgTreeId(a), AnyId::HgTreeId(b)) => a.same_as(b),
            (AnyId::HgChangesetId(a), AnyId::HgChangesetId(b)) => a.same_as(b),
            (AnyId::BonsaiChangesetId(a), AnyId::BonsaiChangesetId(b)) => same_bytes(a, b),
            (AnyId::AnyFileContentId(a), _) => {
                proof {
                    assert(a@.0 < 4);
                }
                false
            },
            _ => false,
        }
    }
}

/// An id as the server indexes it: the id and the bubble it lives in.
#[derive(Debug)]
pub struct IndexableId {
    pub id: AnyId,
    pub bubble_id: Option<u64>,
}

impl View for IndexableId {
    type V = ((nat, Seq<u8>), Option<u64>);

    open spec fn view(&self) -> ((nat, Seq<u8>), Option<u64>) {
        (self.id@, self.bubble_id)
    }
}

/// What an upload token says about the uploaded data.
#[derive(Debug)]
pub enum UploadTokenMetadata {
    FileContentTokenMetadata { content_size: u64 },
}

/// A token by which the server vouches that it holds some data.
#[derive(Debug)]
pub struct UploadToken {
    pub id: AnyId,
    pub bubble_id: Option<u64>,
    pub metadata: Option<UploadTokenMetadata>,
    pub signature: Vec<u8>,
}

impl UploadToken {
    /// The id under which the server indexes the token's data.
    pub open spec fn spec_indexable_id(&self) -> ((nat, Seq<u8>), Option<u64>) {
        (self.id@, self.bubble_id)
    }
}

/// The answer to one lookup.
#[derive(Debug)]
pub enum LookupResult {
    /// The server does not hold the id.
    NotPresent(IndexableId),
    /// The server holds the id and vouches for it with this token.
    Present(UploadToken),
}

/// A server-side error attached to one entry of a response.
#[derive(Debug)]
pub struct ServerError {
    pub message: String,
    pub code: u64,
}

/// Whether the server knows a commit, or why it cannot tell.
#[derive(Debug)]
pub struct CommitKnownResponse {
    pub hgid: HgId,
    pub known: Result<bool, ServerError>,
}

/// A push variable sent with bookmark moves.
#[derive(Debug)]
pub struct PushVar {
    pub key: String,
    pub value: String,
}


/// The upload URL names the kind of hash as a path segment of its own: the
/// kind's name followed by `/`, with no other `/`, so that joining the hash
/// onto it keeps the kind.
pub proof fn lemma_kind_segments(item: AnyFileContentId)
    ensures
        item is ContentId ==> item.spec_kind_segment() == "content_id/"@,
        item is Sha1 ==> item.spec_kind_segment() == "sha1/"@,
        item is Sha256 ==> item.spec_kind_segment() == "sha256/"@,
        item is SeededBlake3 ==> item.spec_kind_segment() == "seeded_blake3/"@,
        item.spec_kind_segment().len() >= 2,
        item.spec_kind_segment().last() == '/',
        forall|i: int| 0 <= i < item.spec_kind_segment().len() - 1 ==> #[trigger] item.spec_kind_segment()[i] != '/',
{
    reveal_strlit("content_id/");
    reveal_strlit("sha1/");
    reveal_strlit("sha256/");
    reveal_strlit("seeded_blake3/");
}

} // verus!
