use edenapi::client::Client;
use edenapi::config::Config;
use edenapi::config::Method;
use edenapi::errors::SaplingRemoteApiError;
use edenapi::lookup::after_files_lookup;
use edenapi::lookup::merge_upload_results;
use edenapi::lookup::start_files_upload;
use edenapi::lookup::FilesUploadStep;
use edenapi::responses::history_entries;
use edenapi::retry::RetryDelay;
use edenapi::retry::RetryState;
use edenapi::retry::RetryStep;
use edenapi::suffix_query::SuffixQueryError;
use edenapi::types::AnyFileContentId;
use edenapi::types::AnyId;
use edenapi::types::FileAttributes;
use edenapi::types::FileSpec;
use edenapi::types::HgId;
use edenapi::types::IndexableId;
use edenapi::types::Key;
use edenapi::types::LookupResult;
use edenapi::types::TreeAttributes;
use edenapi::types::UploadToken;
use edenapi::urls::is_pair_appendable;
use edenapi::urls::is_query_settable;
use std::time::Duration;

fn h(n: u8) -> HgId {
    HgId::from_byte_array([n; 20])
}

fn key(n: u8) -> Key {
    Key { path: format!("dir/file{}", n), hgid: h(n) }
}

fn client_with(f: impl FnOnce(&mut Config)) -> Client {
    let mut config = Config::new("repo".to_string(), "https://example.com").unwrap();
    f(&mut config);
    Client::with_config(config)
}

#[test]
fn tree_requests_carry_their_batch_and_the_attributes() {
    let client = client_with(|c| {
        c.max_trees_per_batch = Some(2);
        c.augmented_trees = true;
    });
    let given = TreeAttributes { manifest_blob: true, parents: false, child_metadata: true, augmented_trees: false };
    let reqs = client.plan_trees(vec![key(1), key(2), key(3)], Some(given), None).unwrap();
    assert_eq!(reqs.len(), 2);
    assert_eq!(reqs[0].body.keys.len(), 2);
    assert_eq!(reqs[1].body.keys[0].path, "dir/file3");
    for r in &reqs {
        let a = r.body.attributes;
        assert!(a.manifest_blob && !a.parents && a.child_metadata && a.augmented_trees);
        assert_eq!(r.request.url, "https://example.com/repo/trees");
    }
    assert!(client.plan_trees(Vec::new(), None, None).unwrap().is_empty());
}

#[test]
fn a_zero_batch_size_elsewhere_does_not_stop_tree_fetches() {
    let client = client_with(|c| c.max_files_per_batch = Some(0));
    let reqs = client.plan_trees(vec![key(1)], None, None).unwrap();
    assert_eq!(reqs.len(), 1);
    assert!(reqs[0].body.attributes.manifest_blob && reqs[0].body.attributes.parents);
    assert!(client.plan_files(Vec::new(), None).unwrap().is_empty());
}

#[test]
fn file_requests_carry_their_specs() {
    let client = client_with(|c| {
        c.max_files_per_batch = Some(1);
        c.try_route_consistently = true;
    });
    let spec = |n| FileSpec { key: key(n), attrs: FileAttributes { content: true, aux_data: n % 2 == 0 } };
    let reqs = client.plan_files(vec![spec(1), spec(2)], None).unwrap();
    assert_eq!(reqs.len(), 2);
    assert_eq!(reqs[1].body.reqs[0].key.path, "dir/file2");
    assert!(reqs[1].body.reqs[0].attrs.aux_data);
    assert_eq!(reqs[0].request.url, format!("https://example.com/repo/files2?routing_key={}", "01".repeat(20)));
}

#[test]
fn history_requests_carry_the_length() {
    let client = client_with(|c| c.max_history_per_batch = Some(2));
    let reqs = client.plan_history(vec![key(1), key(2), key(3)], Some(5), None).unwrap();
    assert_eq!(reqs.len(), 2);
    assert_eq!(reqs[0].body.keys.len(), 2);
    assert_eq!(reqs[1].body.keys.len(), 1);
    assert!(reqs.iter().all(|r| r.body.length == Some(5)));
    assert_eq!(reqs[0].request.url, "https://example.com/repo/history");
    assert!(client.plan_history(Vec::new(), None, None).unwrap().is_empty());
}

#[test]
fn history_chunks_flatten_in_order() {
    let entries = history_entries(vec![vec![1, 2], Vec::new(), vec![3], vec![4, 5, 6]]);
    assert_eq!(entries, vec![1, 2, 3, 4, 5, 6]);
    assert!(history_entries::<u8>(Vec::new()).is_empty());
}

#[test]
fn translate_id_requests_carry_scheme_and_repos() {
    let client = client_with(|c| c.max_commit_translate_id_per_batch = Some(2));
    let reqs = client
        .plan_commit_translate_id(vec![1u32, 2, 3], 'g', Some("from".to_string()), None, None)
        .unwrap();
    assert_eq!(reqs.len(), 2);
    assert_eq!(reqs[0].body.commits, vec![1, 2]);
    assert_eq!(reqs[1].body.commits, vec![3]);
    for r in &reqs {
        assert_eq!(r.body.scheme, 'g');
        assert_eq!(r.body.from_repo.as_deref(), Some("from"));
        assert!(r.body.to_repo.is_none());
        assert_eq!(r.request.url, "https://example.com/repo/commit/translate_id");
    }
    // No shortcut for no commits: without a batch size, one request with
    // none; with one, no batch and so no request.
    let none: Vec<u32> = Vec::new();
    assert!(client.plan_commit_translate_id(none.clone(), 'h', None, None, None).unwrap().is_empty());
    let client = client_with(|_| {});
    let reqs = client.plan_commit_translate_id(none, 'h', None, Some("to".to_string()), None).unwrap();
    assert_eq!(reqs.len(), 1);
    assert!(reqs[0].body.commits.is_empty());
    assert_eq!(reqs[0].body.to_repo.as_deref(), Some("to"));
}

#[test]
fn hash_to_location_requests_carry_all_master_heads() {
    let client = client_with(|c| c.max_location_to_hash_per_batch = Some(1));
    let reqs = client.plan_hash_to_location(vec![h(9), h(8)], vec![h(1), h(2)], None).unwrap();
    assert_eq!(reqs.len(), 2);
    for (i, r) in reqs.iter().enumerate() {
        assert_eq!(r.body.master_heads.len(), 2);
        assert_eq!(r.body.master_heads[0].to_hex(), "09".repeat(20));
        assert_eq!(r.body.master_heads[1].to_hex(), "08".repeat(20));
        assert_eq!(r.body.unfiltered, Some(true));
        assert_eq!(r.body.hgids[0].to_hex(), format!("{:02x}", i + 1).repeat(20));
    }
    assert!(client.plan_hash_to_location(vec![h(9)], Vec::new(), None).unwrap().is_empty());
}

#[test]
fn location_to_hash_and_hash_lookup_batches() {
    let client = client_with(|c| c.max_location_to_hash_per_batch = Some(3));
    let reqs = client.plan_location_to_hash(vec!["a", "b", "c", "d"], None).unwrap();
    assert_eq!(reqs.len(), 2);
    assert_eq!(reqs[1].body.requests, vec!["d"]);
    let prefixes: Vec<u32> = (0..1001).collect();
    let reqs = client.plan_hash_lookup(prefixes, None).unwrap();
    assert_eq!(reqs.len(), 2);
    assert_eq!(reqs[1].body.batch, vec![1000]);
    assert_eq!(reqs[0].request.url, "https://example.com/repo/commit/hash_lookup");
}

#[test]
fn lookup_requests_carry_the_bubbles() {
    let client = client_with(|_| {});
    let ids = vec![AnyId::HgChangesetId(h(1)), AnyId::HgTreeId(h(2))];
    let reqs = client.plan_lookup(ids, Some(4), Some(3), None).unwrap();
    assert_eq!(reqs.len(), 1);
    let batch = &reqs[0].body.batch;
    assert_eq!(batch.len(), 2);
    assert!(matches!(batch[1].id, AnyId::HgTreeId(_)));
    assert!(batch.iter().all(|l| l.bubble_id == Some(4) && l.copy_from_bubble_id == Some(3)));
    assert_eq!(reqs[0].request.url, "https://example.com/repo/lookup");
    assert!(client.plan_lookup(Vec::new(), None, None, None).unwrap().is_empty());
}

#[test]
fn upload_batches_wrap_each_item() {
    let client = client_with(|_| {});
    let reqs = client.plan_upload_filenodes(vec![7u8, 8], None).unwrap();
    assert_eq!(reqs.len(), 1);
    assert_eq!(reqs[0].body.batch[1].data, 8);
    let reqs = client.plan_upload_trees(vec!["t"], None).unwrap();
    assert_eq!(reqs[0].body.batch[0].entry, "t");
    assert!(client.plan_upload_trees(Vec::<u8>::new(), None).unwrap().is_empty());
    let client = client_with(|c| c.max_commit_mutations_per_batch = Some(1));
    let reqs = client.plan_commit_mutations(vec![h(1), h(2)], None).unwrap();
    assert_eq!(reqs.len(), 2);
    assert_eq!(reqs[1].body.commits[0].to_hex(), "02".repeat(20));
}

#[test]
fn changeset_uploads_need_changesets() {
    let client = client_with(|_| {});
    let none: Vec<u32> = Vec::new();
    assert!(client.plan_upload_changesets(none, vec!["mutation"], None).unwrap().is_none());
    let p = client.plan_upload_changesets(vec![1u32, 2], vec!["m"], None).unwrap().unwrap();
    assert_eq!(p.body.changesets, vec![1, 2]);
    assert_eq!(p.body.mutations, vec!["m"]);
    assert_eq!(p.request.url, "https://example.com/repo/upload/changesets");
    assert!(p.request.min_transfer_speed.is_none());
}

#[test]
fn suffix_queries_need_suffixes() {
    let client = client_with(|_| {});
    assert!(client.plan_suffix_query(5u32, Vec::new(), None).unwrap().is_none());
    let p = client.plan_suffix_query(5u32, vec![".rs".to_string()], None).unwrap().unwrap();
    assert_eq!(p.body.commit, 5);
    assert_eq!(p.body.basename_suffixes, vec![".rs".to_string()]);
    assert_eq!(p.request.url, "https://example.com/repo/suffix_query");
    assert!(matches!(p.request.method, Method::Post));
}

#[test]
fn land_stack_and_set_bookmark_bodies() {
    let client = client_with(|_| {});
    let vars = vec![("k".to_string(), "v".to_string())];
    let p = client.plan_land_stack("main".to_string(), h(2), h(1), vars.clone(), None).unwrap();
    assert_eq!(p.body.bookmark, "main");
    assert_eq!(p.body.head.to_hex(), "02".repeat(20));
    assert_eq!(p.body.base.to_hex(), "01".repeat(20));
    assert_eq!(p.body.pushvars.len(), 1);
    assert_eq!(p.body.pushvars[0].key, "k");
    assert_eq!(p.body.pushvars[0].value, "v");
    assert_eq!(p.request.url, "https://example.com/repo/land");
    assert!(p.request.min_transfer_speed.is_none());
    let p = client.plan_set_bookmark("main".to_string(), Some(h(3)), None, vars, None).unwrap();
    assert!(p.body.from.is_none());
    assert_eq!(p.body.to.as_ref().unwrap().to_hex(), "03".repeat(20));
    assert!(p.request.min_transfer_speed.is_none());
}

#[test]
fn other_single_requests_carry_their_inputs() {
    let client = client_with(|_| {});
    let p = client.plan_commit_graph(vec![h(1)], vec![h(2), h(3)], None).unwrap();
    assert_eq!(p.body.common.len(), 2);
    assert!(p.request.min_transfer_speed.is_none());
    let p = client.plan_commit_graph_segments(vec![h(1)], Vec::new(), None).unwrap();
    assert_eq!(p.body.heads.len(), 1);
    let p = client.plan_bookmarks(vec!["a".to_string()], None).unwrap();
    assert_eq!(p.body.bookmarks, vec!["a".to_string()]);
    let p = client.plan_commit_revlog_data(vec![h(4)], None).unwrap();
    assert_eq!(p.body.hgids.len(), 1);
    let p = client.plan_ephemeral_prepare(Some(60), Some(vec!["l".to_string()]), None).unwrap();
    assert_eq!(p.body.custom_duration_secs, Some(60));
    assert_eq!(p.body.labels, Some(vec!["l".to_string()]));
    let p = client.plan_cloud_workspace("ws".to_string(), "repo".to_string(), None).unwrap();
    assert_eq!(p.body.workspace, "ws");
    let p = client.plan_pull_lazy(vec![h(1)], vec![h(2)], None).unwrap();
    assert_eq!(p.body.missing.len(), 1);
    let p = client.plan_pull_fast_forward(h(1), h(2), None).unwrap();
    assert_eq!(p.body.new_master.to_hex(), "02".repeat(20));
}

fn token(id: AnyId, bubble_id: Option<u64>) -> UploadToken {
    UploadToken { id, bubble_id, metadata: None, signature: Vec::new() }
}

#[test]
fn file_uploads_look_up_then_upload_the_rest() {
    assert!(matches!(start_files_upload(Vec::new()), FilesUploadStep::Done));
    let data = vec![
        (AnyFileContentId::Sha1([1; 20]), b"one".to_vec()),
        (AnyFileContentId::Sha1([2; 20]), b"two".to_vec()),
    ];
    let (ids, data) = match start_files_upload(data) {
        FilesUploadStep::LookUp { ids, data } => (ids, data),
        FilesUploadStep::Done => panic!("expected a lookup"),
    };
    assert_eq!(ids.len(), 2);
    let answers = vec![
        LookupResult::Present(token(AnyId::AnyFileContentId(AnyFileContentId::Sha1([2; 20])), Some(6))),
        LookupResult::NotPresent(IndexableId { id: AnyId::AnyFileContentId(AnyFileContentId::Sha1([1; 20])), bubble_id: Some(6) }),
    ];
    let plan = after_files_lookup(data, Some(6), answers);
    assert_eq!(plan.uploaded.len(), 1);
    assert_eq!(plan.uploads.len(), 1);
    assert_eq!(plan.uploads[0].1, b"one".to_vec());
    let new = vec![Ok::<UploadToken, SaplingRemoteApiError>(token(AnyId::AnyFileContentId(AnyFileContentId::Sha1([1; 20])), Some(6)))];
    let all = merge_upload_results(new, plan.uploaded);
    assert_eq!(all.len(), 2);
}

#[test]
fn suffix_query_error_contexts() {
    assert_eq!(SuffixQueryError::<u32>::NoSuffixes.context("abc").as_deref(), Some("No suffixes provided"));
    assert_eq!(
        SuffixQueryError::ChangesetLookupFailed(1u32).context("abc").as_deref(),
        Some("Error getting changeset abc")
    );
    assert!(SuffixQueryError::CommitIdNotFound(1u32).context("abc").is_none());
}

#[test]
fn retries_stop_after_the_limit_whatever_the_errors() {
    let mut s = RetryState::new(3);
    let mut attempts = 0;
    loop {
        attempts += 1;
        match s.on_result(false) {
            RetryStep::Return => break,
            RetryStep::ConsultError { .. } => match s.on_delay(Some(Duration::from_millis(0))) {
                RetryDelay::SleepThenRetry(_) => {}
                RetryDelay::Return => break,
            },
        }
    }
    assert_eq!(attempts, 4);
}

#[test]
fn upload_urls_are_not_capped_below_the_url_crate_limit() {
    let server = format!("https://example.com/{}/", "a".repeat(17_000_000));
    let client = Client::with_config(Config::new("repo".to_string(), &server).unwrap());
    let item = AnyFileContentId::Sha1([3; 20]);
    let p = client.file_upload_request(&item, b"abc".to_vec(), Some(1), None).unwrap();
    assert!(p.request.url.len() > 17_000_000);
    assert!(p.request.url.ends_with("?content_size=3&bubble_id=1"));
    let p = client.bonsai_upload_request(0u8, Some(2), None).unwrap();
    assert!(p.request.url.ends_with("/repo/upload/changeset/bonsai?bubble_id=2"));
}

#[test]
fn query_bounds_follow_the_url_crate_offsets() {
    let max = u32::MAX as usize;
    // Without a fragment nothing is put back, so any query length passes.
    assert!(is_query_settable("http://a/", usize::MAX));
    assert!(is_pair_appendable("http://a/", usize::MAX));
    // With one, the length before it plus the new query must fit in a u32.
    assert!(is_query_settable("http://a/?old#f", max - 10));
    assert!(!is_query_settable("http://a/?old#f", max - 9));
    assert!(is_pair_appendable("http://a/?q#f", max - 12));
    assert!(!is_pair_appendable("http://a/?q#f", max - 11));
    assert!(is_pair_appendable("http://a/#f", max - 10));
    assert!(!is_pair_appendable("http://a/#f", max - 9));
}

#[test]
fn prepared_requests_come_from_the_two_functions() {
    let client = client_with(|_| {});
    let reqs = client.prepare_requests(
        "https://example.com/repo/x",
        vec![1u32, 2, 3],
        Some(2),
        None,
        |b: Vec<u32>| b.iter().sum::<u32>(),
        |u: &str, b: &Vec<u32>| format!("{}?n={}", u, b.len()),
        Some("info".to_string()),
    );
    assert_eq!(reqs.len(), 2);
    assert_eq!(reqs[0].body, 3);
    assert_eq!(reqs[1].body, 3);
    assert_eq!(reqs[0].request.url, "https://example.com/repo/x?n=2");
    assert_eq!(reqs[1].request.url, "https://example.com/repo/x?n=1");
    assert!(matches!(reqs[1].request.method, Method::Post));
    assert_eq!(reqs[1].request.client_info.as_deref(), Some("info"));
}
