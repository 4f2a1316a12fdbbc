use edenapi::errors::SaplingRemoteApiError;
use edenapi::status::checked_error_message;
use edenapi::status::checked_http_error;
use edenapi::status::error_message;
use edenapi::status::http_error;
use edenapi::status::status_is_success;

const OMITTED: &str = "HTML content omitted (this error may have come from a proxy server)";

#[test]
fn statuses_below_400_succeed() {
    assert!(status_is_success(200));
    assert!(status_is_success(399));
    assert!(!status_is_success(400));
    assert!(!status_is_success(503));
}

#[test]
fn html_bodies_are_omitted() {
    assert_eq!(error_message("<!DOCTYPE html><html></html>"), OMITTED);
    assert_eq!(error_message("<!doctype html>"), OMITTED);
    assert_eq!(error_message("<!DocType"), OMITTED);
    assert_eq!(error_message("<!doctyp"), "<!doctyp");
    assert_eq!(error_message("not found"), "not found");
}

#[test]
fn long_messages_are_truncated() {
    let long = "x".repeat(600);
    let expected = format!("{}... (truncated)", "x".repeat(500));
    assert_eq!(error_message(&long), expected);
    assert_eq!(error_message(&long).len(), 515);
    let exact = "y".repeat(500);
    assert_eq!(error_message(&exact), exact);
}

#[test]
fn cuts_inside_a_character_are_reported() {
    let mut split = "a".repeat(499);
    split.push('é');
    split.push_str("tail");
    assert_eq!(checked_error_message(&split), None);
    let mut head = "ab".to_string();
    head.push_str("ééééé");
    assert_eq!(checked_error_message(&head), None);
    assert_eq!(checked_error_message("plain").as_deref(), Some("plain"));
}

#[test]
fn http_errors_carry_status_message_and_url() {
    let e = http_error(404, "https://example.com/repo/trees".to_string(), vec![], b"no such tree");
    match e {
        SaplingRemoteApiError::HttpError { status, message, headers, url } => {
            assert_eq!(status, 404);
            assert_eq!(message, "no such tree");
            assert!(headers.is_empty());
            assert_eq!(url, "https://example.com/repo/trees");
        }
        other => panic!("unexpected {:?}", other),
    }
}

#[test]
fn invalid_utf8_is_replaced() {
    let e = http_error(500, "u".to_string(), vec![], &[b'o', b'k', 0xff]);
    match e {
        SaplingRemoteApiError::HttpError { message, .. } => assert_eq!(message, "ok\u{fffd}"),
        other => panic!("unexpected {:?}", other),
    }
    let mut body = vec![b'z'; 499];
    body.extend_from_slice("é".as_bytes());
    assert!(checked_http_error(500, "u".to_string(), vec![], &body).is_none());
    let e = checked_http_error(502, "u".to_string(), vec![], b"<!doctype html>").unwrap();
    match e {
        SaplingRemoteApiError::HttpError { status, message, .. } => {
            assert_eq!(status, 502);
            assert_eq!(message, OMITTED);
        }
        other => panic!("unexpected {:?}", other),
    }
}

#[test]
fn valid_utf8_bodies_are_kept_as_they_are() {
    let e = http_error(503, "u".to_string(), vec![], "café ☕".as_bytes());
    match e {
        SaplingRemoteApiError::HttpError { message, .. } => assert_eq!(message, "café ☕"),
        other => panic!("unexpected {:?}", other),
    }
}
