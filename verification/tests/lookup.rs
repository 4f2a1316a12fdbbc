use edenapi::errors::SaplingRemoteApiError;
use edenapi::lookup::changeset_ids;
use edenapi::lookup::commit_known_from_answers;
use edenapi::lookup::content_ids;
use edenapi::lookup::contents_to_upload;
use edenapi::lookup::merge_upload_results;
use edenapi::lookup::present_tokens;
use edenapi::types::AnyFileContentId;
use edenapi::types::AnyId;
use edenapi::types::HgId;
use edenapi::types::IndexableId;
use edenapi::types::LookupResult;
use edenapi::types::UploadToken;

fn h(n: u8) -> HgId {
    HgId::from_byte_array([n; 20])
}

fn token(id: AnyId, bubble_id: Option<u64>) -> UploadToken {
    UploadToken { id, bubble_id, metadata: None, signature: vec![1, 2, 3] }
}

#[test]
fn commit_known_answers_each_commit() {
    let answers = vec![
        LookupResult::Present(token(AnyId::HgChangesetId(h(1)), None)),
        LookupResult::NotPresent(IndexableId { id: AnyId::HgChangesetId(h(2)), bubble_id: None }),
        // A later answer about the same commit wins.
        LookupResult::Present(token(AnyId::HgChangesetId(h(2)), None)),
        LookupResult::NotPresent(IndexableId { id: AnyId::HgChangesetId(h(4)), bubble_id: None }),
    ];
    let out = commit_known_from_answers(vec![h(1), h(2), h(3), h(4)], &answers).unwrap();
    assert_eq!(out.len(), 4);
    assert_eq!(out[0].known.as_ref().ok(), Some(&true));
    assert_eq!(out[1].known.as_ref().ok(), Some(&true));
    let e = out[2].known.as_ref().err().unwrap();
    assert_eq!(e.message, "the server cannot check `HgChangesetId`");
    assert_eq!(e.code, 0);
    assert_eq!(out[3].known.as_ref().ok(), Some(&false));
    assert_eq!(out[2].hgid.to_hex(), "03".repeat(20));
}

#[test]
fn answers_about_other_ids_are_refused() {
    let answers = vec![LookupResult::Present(token(AnyId::HgTreeId(h(1)), None))];
    match commit_known_from_answers(vec![h(1)], &answers) {
        Err(SaplingRemoteApiError::Other(m)) => assert_eq!(m, "Invalid id returned"),
        other => panic!("unexpected {:?}", other),
    }
}

#[test]
fn lookups_are_asked_for_changesets() {
    let ids = changeset_ids(&vec![h(5), h(6)]);
    assert!(matches!(&ids[0], AnyId::HgChangesetId(x) if x.to_hex() == "05".repeat(20)));
    assert!(matches!(&ids[1], AnyId::HgChangesetId(x) if x.to_hex() == "06".repeat(20)));
}

#[test]
fn only_unvouched_contents_are_uploaded() {
    let data = vec![
        (AnyFileContentId::Sha1([1; 20]), b"one".to_vec()),
        (AnyFileContentId::Sha1([2; 20]), b"two".to_vec()),
        (AnyFileContentId::ContentId([3; 32]), b"three".to_vec()),
    ];
    let ids = content_ids(&data);
    assert_eq!(ids.len(), 3);
    let answers = vec![
        LookupResult::Present(token(AnyId::AnyFileContentId(AnyFileContentId::Sha1([1; 20])), Some(9))),
        LookupResult::NotPresent(IndexableId { id: AnyId::AnyFileContentId(AnyFileContentId::Sha1([2; 20])), bubble_id: Some(9) }),
        // Vouched for, but in another bubble.
        LookupResult::Present(token(AnyId::AnyFileContentId(AnyFileContentId::ContentId([3; 32])), None)),
    ];
    let tokens = present_tokens(answers);
    assert_eq!(tokens.len(), 2);
    let rest = contents_to_upload(data, Some(9), &tokens);
    assert_eq!(rest.len(), 2);
    assert_eq!(rest[0].1, b"two".to_vec());
    assert_eq!(rest[1].1, b"three".to_vec());

    let new: Vec<Result<UploadToken, String>> = vec![Err("failed".to_string())];
    let all = merge_upload_results(new, tokens);
    assert_eq!(all.len(), 3);
    assert!(all[0].is_err());
    assert!(all[1].is_ok() && all[2].is_ok());
}
