use edenapi::suffix_query::ChangesetLookup;
use edenapi::suffix_query::SuffixQueryError;
use edenapi::suffix_query::SuffixQueryHandler;
use edenapi::suffix_query::SuffixQueryRequest;
use edenapi::suffix_query::SuffixQueryStep;

#[test]
fn queries_without_suffixes_are_bad_requests() {
    let request = SuffixQueryRequest { commit: 7u32, basename_suffixes: Vec::new() };
    match SuffixQueryHandler::start(request) {
        SuffixQueryStep::Fail(e) => {
            assert!(matches!(e, SuffixQueryError::NoSuffixes));
            assert_eq!(e.http_status(), 400);
        }
        _ => panic!("expected a refusal"),
    }
}

#[test]
fn queries_with_suffixes_look_the_commit_up() {
    let request = SuffixQueryRequest { commit: 7u32, basename_suffixes: vec![".rs".to_string()] };
    assert_eq!(SuffixQueryHandler::sampling_rate(&request), 100);
    match SuffixQueryHandler::start(request) {
        SuffixQueryStep::LookUpChangeset { commit, suffixes } => {
            assert_eq!(commit, 7);
            assert_eq!(suffixes, vec![".rs".to_string()]);
        }
        _ => panic!("expected a lookup"),
    }
}

#[test]
fn lookup_outcomes() {
    assert_eq!(SuffixQueryHandler::after_lookup(7u32, ChangesetLookup::Found).unwrap(), 7);
    let e = SuffixQueryHandler::after_lookup(7u32, ChangesetLookup::NotFound).unwrap_err();
    assert!(matches!(e, SuffixQueryError::CommitIdNotFound(7)));
    assert_eq!(e.http_status(), 400);
    let e = SuffixQueryHandler::after_lookup(8u32, ChangesetLookup::Failed).unwrap_err();
    assert!(matches!(e, SuffixQueryError::ChangesetLookupFailed(8)));
    assert_eq!(e.http_status(), 500);
    assert_eq!(SuffixQueryHandler::endpoint(), "/suffix_query");
}
