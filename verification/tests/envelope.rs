//! The response envelope: status classes, typed error bodies, the download
//! metadata header, and the error decoders.

use dropbox_rs::errors::ErrorKind;
use dropbox_rs::http::{split_envelope, RawOutcome};
use dropbox_rs::json::Json;
use dropbox_rs::paper::errors::{DocLookupError, ListDocsCursorError, PaperApiCursorError};
use dropbox_rs::paper::{
    archive_response, download_response, list_continue_response, list_response,
};

fn hdrs(pairs: &[(&str, &str)]) -> Vec<(String, String)> {
    pairs.iter().map(|(k, v)| (k.to_string(), v.to_string())).collect()
}

#[test]
fn splits_success_from_typed_error() {
    match split_envelope(200, r#"{"ok":true}"#) {
        Some(RawOutcome::Success { .. }) => {}
        _ => panic!("a 2xx with valid JSON is a success"),
    }
    let body = r#"{"error_summary":"sum/..","error":{".tag":"doc_not_found"},"user_message":"m"}"#;
    match split_envelope(409, body) {
        Some(RawOutcome::Failure { summary, user_message, .. }) => {
            assert_eq!(summary, "sum/..");
            assert_eq!(user_message.as_deref(), Some("m"));
        }
        _ => panic!("a non-2xx with a well-formed body is a typed failure"),
    }
}

#[test]
fn null_user_message_reads_as_absent() {
    let body = r#"{"error_summary":"s","error":{".tag":"doc_not_found"},"user_message":null}"#;
    match split_envelope(409, body) {
        Some(RawOutcome::Failure { user_message, .. }) => assert_eq!(user_message, None),
        _ => panic!("expected a typed failure"),
    }
}

#[test]
fn malformed_bodies_are_hard_decode_errors() {
    // a 2xx body that is not JSON
    assert!(split_envelope(200, "not json").is_none());
    // a non-2xx body without the error-body shape
    assert!(split_envelope(500, r#"{"message":"oops"}"#).is_none());
    // and through an endpoint decoder, never a silently-defaulted value
    match archive_response(200, vec![], "not json") {
        Err(ErrorKind::Decode { status, .. }) => assert_eq!(status, 200),
        _ => panic!("expected a decode error"),
    }
}

#[test]
fn maps_the_doc_lookup_error() {
    let body = r#"{"error_summary":"x","error":{".tag":"doc_not_found"},"user_message":null}"#;
    match archive_response(409, vec![], body) {
        Err(ErrorKind::DocLookupErr(e)) => {
            assert_eq!(e.status, 409);
            assert_eq!(e.error, DocLookupError::DocNotFound);
            assert_eq!(e.user_message, None);
            assert_eq!(e.body, body);
        }
        _ => panic!("expected the doc-lookup variant"),
    }
}

#[test]
fn preserves_the_nested_cursor_error() {
    let body = r#"{"error_summary":"x","error":{"cursor_error":{".tag":"expired_cursor"}},"user_message":null}"#;
    match list_continue_response(409, vec![], body) {
        Err(ErrorKind::ListDocsCursorErr(e)) => {
            assert_eq!(
                e.error,
                ListDocsCursorError::CursorError {
                    cursor_error: PaperApiCursorError::ExpiredCursor
                }
            );
            assert_eq!(e.user_message, None);
        }
        _ => panic!("expected the nested cursor variant"),
    }
}

#[test]
fn archive_succeeds_on_a_null_body() {
    let r = archive_response(200, hdrs(&[("x", "y")]), "null").expect("a null body is success");
    assert_eq!(r.status, 200);
}

#[test]
fn list_treats_a_typed_error_as_contract_violation() {
    let body = r#"{"error_summary":"x","error":null,"user_message":null}"#;
    match list_response(500, vec![], body) {
        Err(ErrorKind::ContractViolation { status, .. }) => assert_eq!(status, 500),
        _ => panic!("the list endpoint never returns a typed error"),
    }
    // an error body with a payload is a contract mismatch of another kind
    let other = r#"{"error_summary":"x","error":{".tag":"nope"},"user_message":null}"#;
    assert!(matches!(list_response(500, vec![], other), Err(ErrorKind::Decode { .. })));
}

#[test]
fn download_distinguishes_the_missing_header() {
    // 2xx without the metadata header: a missing-header error, not decode
    match download_response(200, hdrs(&[("content-type", "text/html")]), "") {
        Err(ErrorKind::HeaderNotFound(h)) => assert_eq!(h, "Dropbox-API-Result"),
        _ => panic!("expected the missing-header error"),
    }
    // the header name compares without regard to ASCII case
    let meta = r#"{"owner":"o","title":"t","revision":3,"mime_type":"text/markdown"}"#;
    let r = download_response(200, hdrs(&[("dropbox-api-result", meta)]), "")
        .expect("metadata rides in the header");
    assert_eq!(r.body.owner, "o");
    assert_eq!(r.body.title, "t");
    assert_eq!(r.body.revision, 3);
    assert_eq!(r.body.mime_type, "text/markdown");
    // a header that does not parse is a decode error
    assert!(matches!(
        download_response(200, hdrs(&[("Dropbox-API-Result", "{")]), ""),
        Err(ErrorKind::Decode { .. })
    ));
}

#[test]
fn status_classes_follow_the_envelope() {
    // every 2xx is the success class; everything else takes the error path
    for st in [200u16, 204, 299] {
        assert!(matches!(
            split_envelope(st, "true"),
            Some(RawOutcome::Success { json: Json::Bool(true) })
        ));
    }
    for st in [199u16, 300, 404, 500] {
        assert!(split_envelope(st, "true").is_none());
    }
}
