use edenapi::client::Client;
use edenapi::config::Config;
use edenapi::config::Encoding;
use edenapi::config::Method;
use edenapi::endpoints::Endpoint;
use edenapi::errors::SaplingRemoteApiError;
use edenapi::types::AnyFileContentId;
use edenapi::types::FileAttributes;
use edenapi::types::FileSpec;
use edenapi::types::HgId;
use edenapi::types::Key;
use edenapi::types::TreeAttributes;
use std::time::Duration;

fn client_for(repo_name: &str, server: &str) -> Client {
    Client::with_config(Config::new(repo_name.to_string(), server).unwrap())
}

fn key(n: u8) -> Key {
    Key { path: format!("dir/file{}", n), hgid: HgId::from_byte_array([n; 20]) }
}

#[test]
fn test_url_escaping() {
    let repo_name = "repo_-. !@#$% foo \u{1f4a9} bar";
    let client = client_for(repo_name, "https://example.com");

    let path = "path";
    let url: String = client.build_url(path).unwrap();
    let expected =
        "https://example.com/repo_-.%20%21%40%23%24%25%20foo%20%F0%9F%92%A9%20bar/path";
    assert_eq!(&url, &expected);
}

#[test]
fn server_url_is_stored_parsed() {
    let client = client_for("repo", "HTTPS://Example.COM");
    assert_eq!(client.url().unwrap(), "https://example.com/");
}

#[test]
fn invalid_server_url_is_refused() {
    assert!(matches!(
        Config::new("repo".to_string(), "not a url"),
        Err(SaplingRemoteApiError::Url(_))
    ));
}

#[test]
fn repoless_url_skips_the_repository() {
    let client = client_for("repo", "https://example.com/base/");
    assert_eq!(
        client.build_url_repoless("health_check").unwrap(),
        "https://example.com/base/health_check"
    );
    assert_eq!(client.build_url("trees").unwrap(), "https://example.com/base/repo/trees");
    assert_eq!(client.url().unwrap(), "https://example.com/base/");
    assert_eq!(client.repo_name(), "repo");
}

#[test]
fn configured_request_carries_the_configuration() {
    let mut config = Config::new("repo".to_string(), "https://example.com").unwrap();
    config.headers = vec![("X-A".to_string(), "1".to_string()), ("X-B".to_string(), "2".to_string())];
    config.timeout = Some(Duration::from_secs(7));
    config.encoding = Some(Encoding::Zstd);
    config.min_transfer_speed = Some(edenapi::config::MinTransferSpeed {
        min_bytes_per_second: 10,
        grace_period: Duration::from_secs(3),
    });
    let client = Client::with_config(config);
    let r = client.configure_request(Method::Post, "https://example.com/x".to_string(), Some("{}".to_string()));
    assert!(matches!(r.method, Method::Post));
    assert_eq!(r.url, "https://example.com/x");
    assert_eq!(r.headers, vec![("X-A".to_string(), "1".to_string()), ("X-B".to_string(), "2".to_string())]);
    assert_eq!(r.timeout, Some(Duration::from_secs(7)));
    assert!(matches!(r.accept_encoding, Some(Encoding::Zstd)));
    assert_eq!(r.min_transfer_speed.unwrap().min_bytes_per_second, 10);
    assert_eq!(r.client_info.as_deref(), Some("{}"));
}

#[test]
fn endpoint_requests() {
    let mut config = Config::new("repo".to_string(), "https://example.com").unwrap();
    config.encoding = Some(Encoding::Gzip);
    config.min_transfer_speed = Some(edenapi::config::MinTransferSpeed {
        min_bytes_per_second: 10,
        grace_period: Duration::from_secs(3),
    });
    let client = Client::with_config(config);

    let health = client.request_for(Endpoint::HealthCheck, None).unwrap();
    assert!(matches!(health.method, Method::Get));
    assert_eq!(health.url, "https://example.com/health_check");

    let caps = client.request_for(Endpoint::Capabilities, None).unwrap();
    assert!(matches!(caps.method, Method::Get));
    assert_eq!(caps.url, "https://example.com/repo/capabilities");

    let graph = client.request_for(Endpoint::CommitGraph, None).unwrap();
    assert!(matches!(graph.method, Method::Post));
    assert_eq!(graph.url, "https://example.com/repo/commit/graph_v2");
    assert!(matches!(graph.accept_encoding, Some(Encoding::Identity)));
    assert!(graph.min_transfer_speed.is_none());

    let land = client.request_for(Endpoint::LandStack, None).unwrap();
    assert_eq!(land.url, "https://example.com/repo/land");
    assert!(land.min_transfer_speed.is_none());
    assert!(matches!(land.accept_encoding, Some(Encoding::Gzip)));

    let bookmarks = client.request_for(Endpoint::Bookmarks, None).unwrap();
    assert_eq!(bookmarks.url, "https://example.com/repo/bookmarks");
    assert!(bookmarks.min_transfer_speed.is_some());
}

#[test]
fn batched_calls_skip_empty_inputs_for_some_endpoints() {
    let client = client_for("repo", "https://example.com");
    let none: Vec<u32> = Vec::new();
    assert!(client.plan_batched(Endpoint::Lookup, none.clone(), None).unwrap().is_empty());
    assert!(client.plan_batched(Endpoint::Blame, none.clone(), None).unwrap().is_empty());
    // Commit mutations have no batch size configured here, so even no
    // commits make one request.
    let reqs = client.plan_batched(Endpoint::CommitMutations, none, None).unwrap();
    assert_eq!(reqs.len(), 1);
    assert!(reqs[0].body.is_empty());
    assert_eq!(reqs[0].request.url, "https://example.com/repo/commit/mutations");
}

#[test]
fn blame_is_batched_by_ten() {
    let client = client_for("repo", "https://example.com");
    let files: Vec<u32> = (0..25).collect();
    let reqs = client.plan_batched(Endpoint::Blame, files, None).unwrap();
    assert_eq!(reqs.len(), 3);
    assert_eq!(reqs[0].body, (0..10).collect::<Vec<u32>>());
    assert_eq!(reqs[2].body, (20..25).collect::<Vec<u32>>());
    for r in &reqs {
        assert_eq!(r.request.url, "https://example.com/repo/blame");
        assert!(matches!(r.request.method, Method::Post));
    }
}

#[test]
fn single_key_batches_carry_a_routing_key() {
    let mut config = Config::new("repo".to_string(), "https://example.com").unwrap();
    config.try_route_consistently = true;
    config.max_trees_per_batch = Some(2);
    config.min_batch_size = Some(2);
    let client = Client::with_config(config);
    let reqs = client.plan_routed(Endpoint::Trees, vec![key(1), key(2), key(171)], None).unwrap();
    assert_eq!(reqs.len(), 2);
    assert_eq!(reqs[0].body.len(), 2);
    assert_eq!(reqs[0].request.url, "https://example.com/repo/trees");
    assert_eq!(
        reqs[1].request.url,
        format!("https://example.com/repo/trees?routing_key={}", "ab".repeat(20))
    );
    assert_eq!(reqs[1].body[0].path, "dir/file171");
}

#[test]
fn routing_is_off_unless_configured() {
    let mut config = Config::new("repo".to_string(), "https://example.com").unwrap();
    config.max_files_per_batch = Some(1);
    let client = Client::with_config(config);
    let spec = FileSpec { key: key(3), attrs: FileAttributes { content: true, aux_data: false } };
    let reqs = client.plan_routed(Endpoint::Files, vec![spec], None).unwrap();
    assert_eq!(reqs.len(), 1);
    assert_eq!(reqs[0].request.url, "https://example.com/repo/files2");
    let none: Vec<Key> = Vec::new();
    assert!(client.plan_routed(Endpoint::History, none, None).unwrap().is_empty());
}

#[test]
fn tree_attributes_follow_the_configuration() {
    let mut config = Config::new("repo".to_string(), "https://example.com").unwrap();
    let client = Client::with_config(Config::new("repo".to_string(), "https://example.com").unwrap());
    let a = client.tree_attributes(None);
    assert!(a.manifest_blob && a.parents && !a.child_metadata && !a.augmented_trees);
    config.augmented_trees = true;
    let client = Client::with_config(config);
    let given = TreeAttributes { manifest_blob: false, parents: true, child_metadata: true, augmented_trees: false };
    let a = client.tree_attributes(Some(given));
    assert!(!a.manifest_blob && a.parents && a.child_metadata && a.augmented_trees);
}

#[test]
fn file_upload_url_names_the_hash_and_size() {
    let client = client_for("repo", "https://example.com");
    let item = AnyFileContentId::Sha1([0x0f; 20]);
    let p = client.file_upload_request(&item, b"hello".to_vec(), None, None).unwrap();
    assert_eq!(p.body, b"hello".to_vec());
    let r = p.request;
    assert!(matches!(r.method, Method::Put));
    assert_eq!(
        r.url,
        format!("https://example.com/repo/upload/file/sha1/{}?content_size=5", "0f".repeat(20))
    );
    let item = AnyFileContentId::ContentId([0xa0; 32]);
    let r = client.file_upload_request(&item, vec![0u8; 1234], Some(42), None).unwrap().request;
    assert_eq!(
        r.url,
        format!(
            "https://example.com/repo/upload/file/content_id/{}?content_size=1234&bubble_id=42",
            "a0".repeat(32)
        )
    );
    let item = AnyFileContentId::SeededBlake3([1; 32]);
    let r = client.file_upload_request(&item, Vec::new(), None, None).unwrap().request;
    assert!(r.url.contains("/upload/file/seeded_blake3/0101"));
    assert!(r.url.ends_with("?content_size=0"));
}

#[test]
fn bonsai_upload_url_carries_the_bubble() {
    let client = client_for("repo", "https://example.com");
    let p = client.bonsai_upload_request("changeset", Some(7), None).unwrap();
    assert_eq!(p.request.url, "https://example.com/repo/upload/changeset/bonsai?bubble_id=7");
    assert!(matches!(p.request.method, Method::Post));
    assert_eq!(p.body.changeset, "changeset");
    let p = client.bonsai_upload_request(1u8, None, None).unwrap();
    assert_eq!(p.request.url, "https://example.com/repo/upload/changeset/bonsai");
}

#[test]
fn retry_state_uses_the_configured_limit() {
    let mut config = Config::new("repo".to_string(), "https://example.com").unwrap();
    config.max_retry_per_request = 3;
    let client = Client::with_config(config);
    let s = client.retry_state();
    assert_eq!(s.attempt(), 0);
    assert_eq!(s.max_retry_count(), 3);
}
