//! The cursor-error union nested inside the per-endpoint error types.

use dropbox_rs::json::json_from_str;
use dropbox_rs::paper::errors::{
    parse_list_docs_cursor_error, parse_list_users_cursor_error, ListDocsCursorError,
    ListUsersCursorError, PaperApiCursorError,
};

#[test]
fn test_cursor_error_deserialization() {
    let error_json = r#"{
    "error_summary": "other/...",
    "error": {
        "cursor_error": {".tag": "expired_cursor"}
    }
}"#;
    let parsed = json_from_str(error_json).expect("the error body is JSON");
    match &parsed {
        dropbox_rs::json::Json::Obj(fields) => {
            let error = dropbox_rs::json::e_obj_get(fields, "error").expect("an error payload");
            assert_eq!(
                parse_list_docs_cursor_error(error),
                Some(ListDocsCursorError::CursorError {
                    cursor_error: PaperApiCursorError::ExpiredCursor
                })
            );
            assert_eq!(
                parse_list_users_cursor_error(error),
                Some(ListUsersCursorError::CursorError {
                    cursor_error: PaperApiCursorError::ExpiredCursor
                })
            );
        }
        _ => panic!("expected an object"),
    }
}
