//! Interpreting lookup answers: which commits the server knows, and which
//! file contents still have to be uploaded.

use vstd::prelude::*;
use vstd::string::StringExecFns;
use crate::errors::SaplingRemoteApiError;
use crate::types::AnyFileContentId;
use crate::types::AnyId;
use crate::types::CommitKnownResponse;
use crate::types::HgId;
use crate::types::LookupResult;
use crate::types::ServerError;
use crate::types::UploadToken;

verus! {

/// The kind number of changeset ids in `AnyId`'s view.
pub open spec fn changeset_kind() -> nat {
    6
}

/// The id that a lookup answer is about.
pub open spec fn answer_id(r: LookupResult) -> (nat, Seq<u8>) {
    match r {
        LookupResult::NotPresent(i) => i.id@,
        LookupResult::Present(t) => t.id@,
    }
}

/// Whether every answer is about a changeset.
pub open spec fn all_about_changesets(answers: Seq<LookupResult>) -> bool {
    forall|i: int| 0 <= i < answers.len() ==> (#[trigger] answer_id(answers[i])).0 == changeset_kind()
}

/// What the last answer about changeset `h` says: whether the server holds
/// it, or `None` when no answer is about it. Later answers about the same
/// changeset win over earlier ones.
pub open spec fn last_answer(answers: Seq<LookupResult>, h: Seq<u8>) -> Option<bool>
    decreases answers.len(),
{
    if answers.len() == 0 {
        None
    } else if answer_id(answers.last()) == (changeset_kind(), h) {
        Some(answers.last() is Present)
    } else {
        last_answer(answers.drop_last(), h)
    }
}

/// The message given for a commit that no answer is about.
pub open spec fn cannot_check_message() -> Seq<char> {
    "the server cannot check `HgChangesetId`"@
}

/// Whether `r` is the right response for commit `h`.
pub open spec fn known_response_for(r: CommitKnownResponse, answers: Seq<LookupResult>, h: Seq<u8>) -> bool {
    &&& r.hgid@ == h
    &&& match last_answer(answers, h) {
        Some(b) => r.known == Ok::<bool, ServerError>(b),
        None => r.known matches Err(e) && e.message@ == cannot_check_message() && e.code == 0,
    }
}

/// The ids to look up for the given commits.
pub fn changeset_ids(hgids: &Vec<HgId>) -> (ids: Vec<AnyId>)
    ensures
        ids@.len() == hgids@.len(),
        forall|i: int| 0 <= i < hgids@.len() ==> (#[trigger] ids@[i])@ == (changeset_kind(), hgids@[i]@),
{
    let mut ids: Vec<AnyId> = Vec::new();
    for i in 0..hgids.len()
        invariant
            ids@.len() == i,
            forall|j: int| 0 <= j < i ==> (#[trigger] ids@[j])@ == (changeset_kind(), hgids@[j]@),
    {
        ids.push(AnyId::HgChangesetId(hgids[i].duplicate()));
    }
    ids
}

fn answer_is_changeset(r: &LookupResult) -> (b: bool)
    ensures
        b == (answer_id(*r).0 == changeset_kind()),
{
    match r {
        LookupResult::NotPresent(i) => matches!(i.id, AnyId::HgChangesetId(_)),
        LookupResult::Present(t) => matches!(t.id, AnyId::HgChangesetId(_)),
    }
}

fn answer_matches(r: &LookupResult, h: &HgId) -> (b: bool)
    ensures
        b == (answer_id(*r) == (changeset_kind(), h@)),
{
    let id = match r {
        LookupResult::NotPresent(i) => &i.id,
        LookupResult::Present(t) => &t.id,
    };
    match id {
        AnyId::HgChangesetId(x) => x.same_as(h),
        AnyId::AnyFileContentId(c) => {
            proof {
                assert(c@.0 < 4);
            }
            false
        },
        _ => false,
    }
}

fn find_last_answer(answers: &Vec<LookupResult>, h: &HgId) -> (r: Option<bool>)
    ensures
        r == last_answer(answers@, h@),
{
    let mut i = answers.len();
    assert(answers@.subrange(0, i as int) =~= answers@);
    while i > 0
        invariant
            i <= answers@.len(),
            last_answer(answers@, h@) == last_answer(answers@.subrange(0, i as int), h@),
        decreases i,
    {
        let ghost prefix = answers@.subrange(0, i as int);
        assert(prefix.drop_last() =~= answers@.subrange(0, i - 1));
        if answer_matches(&answers[i - 1], h) {
            return Some(matches!(answers[i - 1], LookupResult::Present(_)));
        }
        i = i - 1;
    }
    None
}

/// Answers, for each commit, whether the server knows it, from the lookup
/// answers about those commits. An answer about anything but a changeset
/// fails the whole call; a commit that no answer is about gets an error of
/// its own.
pub fn commit_known_from_answers(hgids: Vec<HgId>, answers: &Vec<LookupResult>) -> (res: Result<
    Vec<CommitKnownResponse>,
    SaplingRemoteApiError,
>)
    ensures
        match res {
            Ok(out) => {
                &&& all_about_changesets(answers@)
                &&& out@.len() == hgids@.len()
                &&& forall|i: int| 0 <= i < hgids@.len() ==> known_response_for(#[trigger] out@[i], answers@, hgids@[i]@)
            },
            Err(e) => !all_about_changesets(answers@) && (e matches SaplingRemoteApiError::Other(m) && m@ == "Invalid id returned"@),
        },
{
    for k in 0..answers.len()
        invariant
            forall|j: int| 0 <= j < k ==> (#[trigger] answer_id(answers@[j])).0 == changeset_kind(),
    {
        if !answer_is_changeset(&answers[k]) {
            return Err(SaplingRemoteApiError::Other(String::from_str("Invalid id returned")));
        }
    }
    let mut out: Vec<CommitKnownResponse> = Vec::new();
    for i in 0..hgids.len()
        invariant
            out@.len() == i,
            forall|j: int| 0 <= j < i ==> known_response_for(#[trigger] out@[j], answers@, hgids@[j]@),
    {
        let h = &hgids[i];
        let known = match find_last_answer(answers, h) {
            Some(b) => Ok(b),
            None => Err(ServerError { message: String::from_str("the server cannot check `HgChangesetId`"), code: 0 }),
        };
        out.push(CommitKnownResponse { hgid: h.duplicate(), known });
    }
    Ok(out)
}

/// Whether a token vouches for file content `id` in bubble `bubble_id`.
pub open spec fn vouched(tokens: Seq<UploadToken>, id: (nat, Seq<u8>), bubble_id: Option<u64>) -> bool {
    exists|i: int| 0 <= i < tokens.len() && (#[trigger] tokens[i]).spec_indexable_id() == (id, bubble_id)
}

/// The tokens of the answers that found their id, in order.
pub open spec fn present_tokens_of(answers: Seq<LookupResult>) -> Seq<UploadToken>
    decreases answers.len(),
{
    if answers.len() == 0 {
        Seq::empty()
    } else {
        let rest = present_tokens_of(answers.drop_last());
        match answers.last() {
            LookupResult::Present(t) => rest.push(t),
            LookupResult::NotPresent(_) => rest,
        }
    }
}

/// The ids to look up for the given file contents.
pub fn content_ids(data: &Vec<(AnyFileContentId, Vec<u8>)>) -> (ids: Vec<AnyId>)
    ensures
        ids@.len() == data@.len(),
        forall|i: int| 0 <= i < data@.len() ==> (#[trigger] ids@[i])@ == data@[i].0@,
{
    let mut ids: Vec<AnyId> = Vec::new();
    for i in 0..data.len()
        invariant
            ids@.len() == i,
            forall|j: int| 0 <= j < i ==> (#[trigger] ids@[j])@ == data@[j].0@,
    {
        ids.push(AnyId::AnyFileContentId(data[i].0.duplicate()));
    }
    ids
}

/// The tokens of the answers that found their id, in order.
pub fn present_tokens(answers: Vec<LookupResult>) -> (tokens: Vec<UploadToken>)
    ensures
        tokens@ == present_tokens_of(answers@),
{
    let ghost all = answers@;
    let mut tokens: Vec<UploadToken> = Vec::new();
    for a in it: answers.into_iter()
        invariant
            it.seq() == all,
            tokens@ == present_tokens_of(all.take(it.index())),
    {
        assert(all.take(it.index() + 1).drop_last() =~= all.take(it.index() as int));
        match a {
            LookupResult::Present(t) => tokens.push(t),
            LookupResult::NotPresent(_) => {},
        }
    }
    assert(all.take(all.len() as int) =~= all);
    tokens
}

fn is_vouched(tokens: &Vec<UploadToken>, id: &AnyFileContentId, bubble_id: Option<u64>) -> (b: bool)
    ensures
        b == vouched(tokens@, id@, bubble_id),
{
    for i in 0..tokens.len()
        invariant
            forall|j: int| 0 <= j < i ==> (#[trigger] tokens@[j]).spec_indexable_id() != (id@, bubble_id),
    {
        let t = &tokens[i];
        let same_bubble = match (t.bubble_id, bubble_id) {
            (Some(a), Some(b)) => a == b,
            (None, None) => true,
            _ => false,
        };
        let same_id = match &t.id {
            AnyId::AnyFileContentId(c) => c.same_as(id),
            AnyId::HgFilenodeId(_) => false,
            AnyId::HgTreeId(_) => false,
            AnyId::HgChangesetId(_) => false,
            AnyId::BonsaiChangesetId(_) => false,
        };
        if same_bubble && same_id {
            return true;
        }
    }
    false
}

/// The file contents that no token vouches for in the bubble they go to,
/// in order: only these are uploaded.
pub fn contents_to_upload(data: Vec<(AnyFileContentId, Vec<u8>)>, bubble_id: Option<u64>, uploaded: &Vec<UploadToken>) -> (res: Vec<(AnyFileContentId, Vec<u8>)>)
    ensures
        res@ == data@.filter(|p: (AnyFileContentId, Vec<u8>)| !vouched(uploaded@, p.0@, bubble_id)),
{
    let ghost all = data@;
    let ghost keep = |p: (AnyFileContentId, Vec<u8>)| !vouched(uploaded@, p.0@, bubble_id);
    let mut res: Vec<(AnyFileContentId, Vec<u8>)> = Vec::new();
    for p in it: data.into_iter()
        invariant
            it.seq() == all,
            keep == (|p: (AnyFileContentId, Vec<u8>)| !vouched(uploaded@, p.0@, bubble_id)),
            res@ == all.take(it.index()).filter(keep),
    {
        reveal_with_fuel(Seq::<_>::filter, 1);
        assert(all.take(it.index() + 1).drop_last() =~= all.take(it.index() as int));
        if !is_vouched(uploaded, &p.0, bubble_id) {
            res.push(p);
        }
    }
    assert(all.take(all.len() as int) =~= all);
    res
}

/// All upload results: those of the uploads made, followed by the tokens
/// that were already on the server.
pub fn merge_upload_results<E>(new_tokens: Vec<Result<UploadToken, E>>, uploaded: Vec<UploadToken>) -> (all: Vec<Result<UploadToken, E>>)
    ensures
        all@ == new_tokens@ + uploaded@.map_values(|t: UploadToken| Ok::<UploadToken, E>(t)),
{
    let ghost old_tokens = uploaded@;
    let mut all = new_tokens;
    let ghost start = all@;
    for t in it: uploaded.into_iter()
        invariant
            it.seq() == old_tokens,
            all@ == start + old_tokens.take(it.index()).map_values(|t: UploadToken| Ok::<UploadToken, E>(t)),
    {
        all.push(Ok(t));
        assert(old_tokens.take(it.index() + 1).map_values(|t: UploadToken| Ok::<UploadToken, E>(t)) =~= old_tokens.take(it.index() as int).map_values(|t: UploadToken| Ok::<UploadToken, E>(t)).push(Ok(t)));
    }
    assert(old_tokens.take(old_tokens.len() as int) =~= old_tokens);
    all
}

/// What an upload of file contents does first.
pub enum FilesUploadStep {
    /// There is nothing to upload: the answer is empty, and nothing is
    /// sent.
    Done,
    /// Look `ids` up, then decide with `after_files_lookup` on `data`.
    LookUp { ids: Vec<AnyId>, data: Vec<(AnyFileContentId, Vec<u8>)> },
}

/// What an upload of file contents does once the lookup has answered:
/// upload `uploads`, then answer with their results followed by the tokens
/// in `uploaded`, as `merge_upload_results` puts them together.
pub struct FilesUploadPlan {
    pub uploads: Vec<(AnyFileContentId, Vec<u8>)>,
    pub uploaded: Vec<UploadToken>,
}

/// The first step of an upload of file contents: nothing for no contents,
/// otherwise a lookup of every content's id, in order.
pub fn start_files_upload(data: Vec<(AnyFileContentId, Vec<u8>)>) -> (step: FilesUploadStep)
    ensures
        data@.len() == 0 <==> step is Done,
        data@.len() > 0 ==> (step matches FilesUploadStep::LookUp { ids, data: d }
            && d@ == data@ && ids@.len() == data@.len()
            && forall|i: int| 0 <= i < data@.len() ==> (#[trigger] ids@[i])@ == data@[i].0@),
{
    if data.len() == 0 {
        FilesUploadStep::Done
    } else {
        let ids = content_ids(&data);
        FilesUploadStep::LookUp { ids, data }
    }
}

/// The step after the lookup of the contents `data` going to bubble
/// `bubble_id`: the tokens of the ids found, and the contents that none of
/// them vouches for, in order.
pub fn after_files_lookup(data: Vec<(AnyFileContentId, Vec<u8>)>, bubble_id: Option<u64>, answers: Vec<LookupResult>) -> (plan: FilesUploadPlan)
    ensures
        plan.uploaded@ == present_tokens_of(answers@),
        plan.uploads@ == data@.filter(|p: (AnyFileContentId, Vec<u8>)| !vouched(present_tokens_of(answers@), p.0@, bubble_id)),
{
    let uploaded = present_tokens(answers);
    let uploads = contents_to_upload(data, bubble_id, &uploaded);
    FilesUploadPlan { uploads, uploaded }
}

} // verus!
