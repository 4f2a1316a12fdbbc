use edenapi::errors::SaplingRemoteApiError;
use edenapi::responses::download_body;
use edenapi::responses::download_capacity;
use edenapi::responses::parse_capabilities;
use edenapi::responses::push_vars;
use edenapi::types::UploadTokenMetadata;

#[test]
fn capabilities_are_a_json_list() {
    let caps = parse_capabilities(br#"["segmented-changelog", "commit-graph"]"#).unwrap();
    assert_eq!(caps, vec!["segmented-changelog".to_string(), "commit-graph".to_string()]);
}

#[test]
fn bad_capabilities_are_a_parse_error() {
    match parse_capabilities(b"{\"a\": 1}") {
        Err(SaplingRemoteApiError::ParseResponse(m)) => assert!(!m.is_empty()),
        other => panic!("unexpected {:?}", other),
    }
}

#[test]
fn download_concatenates_chunks() {
    let capacity = download_capacity(&Some(UploadTokenMetadata::FileContentTokenMetadata { content_size: 6 }));
    assert_eq!(capacity, 6);
    assert_eq!(download_capacity(&None), 0);
    let body = download_body(capacity, vec![b"ab".to_vec(), Vec::new(), b"cde".to_vec(), b"f".to_vec()]);
    assert_eq!(body, b"abcdef".to_vec());
}

#[test]
fn push_vars_keep_their_order() {
    let vars = push_vars(vec![("a".to_string(), "1".to_string()), ("b".to_string(), "2".to_string())]);
    assert_eq!(vars.len(), 2);
    assert_eq!((vars[0].key.as_str(), vars[0].value.as_str()), ("a", "1"));
    assert_eq!((vars[1].key.as_str(), vars[1].value.as_str()), ("b", "2"));
}
