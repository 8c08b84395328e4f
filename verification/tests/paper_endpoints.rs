//! The Paper endpoints: request construction and response decoding.

use dropbox_rs::errors::ErrorKind;
use dropbox_rs::json::{json_from_str, json_to_string};
use dropbox_rs::paper::users::{
    add_paper_doc_user_from_json, add_paper_doc_user_json, AddMember, AddPaperDocUser,
};
use dropbox_rs::http::{AuthScheme, RequestKind};
use dropbox_rs::paper::users::{
    AddPaperDocUserResult, MemberSelector, PaperDocPermissionLevel, UserOnPaperDocFilter,
};
use dropbox_rs::paper::{
    create_response, get_folder_info_response, get_sharing_policy_response,
    list_folder_users_continue_response, list_folder_users_response, list_response,
    users_add_response, users_list_response, ExportFormat, FolderSharingPolicyType, ImportFormat,
    ListPaperDocsSortBy, Paper, PaperDocUpdatePolicy, SharingPublicPolicyType,
};

fn paper() -> Paper {
    Paper::new("token-1")
}

#[test]
fn list_request_and_response_and_continue() {
    let p = paper();
    let req = p.list_request(None, Some(ListPaperDocsSortBy::Modified), None, 100);
    assert_eq!(req.url, "https://api.dropboxapi.com/2/paper/docs/list");
    assert!(matches!(req.auth, AuthScheme::Bearer(t) if t == "token-1"));
    match req.kind {
        RequestKind::Rpc { body } => assert_eq!(body, r#"{"sort_by":"modified","limit":100}"#),
        _ => panic!("list is an RPC call"),
    }

    let body = r#"{"doc_ids":["abc"],"cursor":{"value":"c1","expiration":"2025-01-01T00:00:00Z"},"has_more":true}"#;
    let r = list_response(200, vec![], body).expect("the mocked list body decodes");
    assert_eq!(r.body.doc_ids, vec!["abc".to_string()]);
    assert!(r.body.has_more);
    assert_eq!(r.body.cursor.value, "c1");
    assert_eq!(r.body.cursor.expiration, "2025-01-01T00:00:00Z");

    let cont = p.list_continue_request(&r.body.cursor.value);
    assert_eq!(cont.url, "https://api.dropboxapi.com/2/paper/docs/list/continue");
    match cont.kind {
        RequestKind::Rpc { body } => assert_eq!(body, r#"{"cursor":"c1"}"#),
        _ => panic!("continue is an RPC call"),
    }
}

#[test]
fn archive_and_delete_requests_carry_the_doc_reference() {
    let p = paper();
    let a = p.archive_request("doc-7");
    assert_eq!(a.url, "https://api.dropboxapi.com/2/paper/docs/archive");
    assert!(matches!(a.kind, RequestKind::Rpc { body } if body == r#"{"doc_id":"doc-7"}"#));
    let d = p.permanently_delete_request("doc-7");
    assert_eq!(d.url, "https://api.dropboxapi.com/2/paper/docs/permanently_delete");
    assert!(matches!(d.kind, RequestKind::Rpc { body } if body == r#"{"doc_id":"doc-7"}"#));
}

#[test]
fn create_and_update_put_arguments_in_the_side_channel_header() {
    let p = paper();
    let c = p.create_request(ImportFormat::Markdown, Some("folder-1"));
    assert_eq!(c.url, "https://api.dropboxapi.com/2/paper/docs/create");
    match c.kind {
        RequestKind::ContentUpload { arg_header } => assert_eq!(
            arg_header,
            r#"{"import_format":"markdown","parent_folder_id":"folder-1"}"#
        ),
        _ => panic!("create is a content upload"),
    }
    let c2 = p.create_request(ImportFormat::PlainText, None);
    assert!(
        matches!(c2.kind, RequestKind::ContentUpload { arg_header } if arg_header == r#"{"import_format":"plain_text"}"#)
    );

    let u = p.update_request("d", PaperDocUpdatePolicy::OverwriteAll, 8, ImportFormat::Html);
    match u.kind {
        RequestKind::ContentUpload { arg_header } => assert_eq!(
            arg_header,
            r#"{"doc_id":"d","doc_update_policy":"overwrite_all","revision":8,"import_format":"html"}"#
        ),
        _ => panic!("update is a content upload"),
    }

    let body = r#"{"doc_id":"d","revision":9,"title":"T"}"#;
    let r = create_response(200, vec![], body).expect("the create result decodes");
    assert_eq!(r.body.doc_id, "d");
    assert_eq!(r.body.revision, 9);
    assert_eq!(r.body.title, "T");
    let err = r#"{"error_summary":"x","error":{".tag":"content_malformed"},"user_message":null}"#;
    assert!(matches!(
        create_response(400, vec![], err),
        Err(ErrorKind::PaperDocCreateErr(_))
    ));
}

#[test]
fn download_request_names_the_export_format() {
    let p = paper();
    let r = p.download_request("d1", ExportFormat::Markdown);
    assert_eq!(r.url, "https://api.dropboxapi.com/2/paper/docs/download");
    match r.kind {
        RequestKind::ContentDownload { arg_header } => {
            assert_eq!(arg_header, r#"{"doc_id":"d1","export_format":"markdown"}"#)
        }
        _ => panic!("download is a content download"),
    }
}

#[test]
fn folder_users_list_and_continue() {
    let p = paper();
    let r = p.list_folder_users_request("d", 2);
    assert!(matches!(r.kind, RequestKind::Rpc { body } if body == r#"{"doc_id":"d","limit":2}"#));
    let body = r#"{"invitees":[{"email":"a@b.c"}],
        "users":[{"account_id":"acct","same_team":true,"team_member_id":null}],
        "cursor":{"value":"v","expiration":"e"},"has_more":false}"#;
    let resp = list_folder_users_response(200, vec![], body).expect("the folder users decode");
    assert_eq!(resp.body.invitees[0].email, "a@b.c");
    assert_eq!(resp.body.users[0].account_id, "acct");
    assert!(resp.body.users[0].same_team);
    assert_eq!(resp.body.users[0].team_member_id, None);
    assert!(!resp.body.has_more);

    let cursor_err = r#"{"error_summary":"x","error":{".tag":"cursor_error","cursor_error":{".tag":"reset"}},"user_message":null}"#;
    assert!(matches!(
        list_folder_users_continue_response(409, vec![], cursor_err),
        Err(ErrorKind::ListUsersCursorErr(_))
    ));
}

#[test]
fn folder_info_decodes_policy_and_path() {
    let body = r#"{"folder_sharing_policy_type":{".tag":"invite_only"},
        "folders":[{"id":"f1","name":"N"}]}"#;
    let r = get_folder_info_response(200, vec![], body).expect("folder info decodes");
    assert_eq!(
        r.body.folder_sharing_policy_type,
        FolderSharingPolicyType::InviteOnly
    );
    assert_eq!(r.body.folders[0].id, "f1");
    assert_eq!(r.body.folders[0].name, "N");
}

#[test]
fn sharing_policy_get_and_set() {
    let p = paper();
    let req = p.set_sharing_policy_request(
        "d",
        Some(SharingPublicPolicyType::PeopleWithLinkCanViewAndComment),
        None,
    );
    match req.kind {
        RequestKind::Rpc { body } => assert_eq!(
            body,
            r#"{"doc_id":"d","sharing_policy":{"public_sharing_policy":"people_with_link_can_view_and_comment"}}"#
        ),
        _ => panic!("policy set is an RPC call"),
    }
    let body = r#"{"public_sharing_policy":{".tag":"people_with_link_can_view_and_comment"}}"#;
    let r = get_sharing_policy_response(200, vec![], body).expect("the policy decodes");
    assert_eq!(
        r.body.public_sharing_policy,
        Some(SharingPublicPolicyType::PeopleWithLinkCanViewAndComment)
    );
    assert_eq!(r.body.team_sharing_policy, None);
}

#[test]
fn users_add_builder_accumulates_and_sends() {
    let p = paper();
    let member = MemberSelector::Email { email: "someone@example.com".to_owned() };
    let req = p
        .users_add("doc-1")
        .custom_message("hello there")
        .quiet(true)
        .add_member(&member, &PaperDocPermissionLevel::Edit)
        .request();
    assert_eq!(req.url, "https://api.dropboxapi.com/2/paper/docs/users/add");
    match req.kind {
        RequestKind::Rpc { body } => assert_eq!(
            body,
            r#"{"doc_id":"doc-1","members":[{"member":{".tag":"email","email":"someone@example.com"},"permission_level":"edit"}],"custom_message":"hello there","quiet":true}"#
        ),
        _ => panic!("users/add is an RPC call"),
    }

    let resp = r#"[{"member":{".tag":"email","email":"someone@example.com"},"result":{".tag":"success"}}]"#;
    let r = users_add_response(200, vec![], resp).expect("the member results decode");
    assert_eq!(r.body.len(), 1);
    assert_eq!(r.body[0].member, member);
    assert_eq!(r.body[0].result, AddPaperDocUserResult::Success);
}

#[test]
fn users_list_and_remove() {
    let p = paper();
    let req = p.users_list_request("d", 10, UserOnPaperDocFilter::Shared);
    assert!(
        matches!(req.kind, RequestKind::Rpc { body } if body == r#"{"doc_id":"d","limit":10,"filter_by":"shared"}"#)
    );
    let body = r#"{"invitees":[{"invitee":{"email":"i@x"},"permission_level":{".tag":"edit"}}],
        "users":[{"user":{"account_id":"a","same_team":false,"team_member_id":null},
                  "permission_level":{".tag":"view_and_comment"}}],
        "doc_owner":{"account_id":"own","same_team":true,"team_member_id":"tm"},
        "cursor":{"value":"v","expiration":"e"},"has_more":false}"#;
    let r = users_list_response(200, vec![], body).expect("the user listing decodes");
    assert_eq!(r.body.invitees[0].invitee.email, "i@x");
    assert_eq!(r.body.invitees[0].permission_level, PaperDocPermissionLevel::Edit);
    assert_eq!(r.body.doc_owner.account_id, "own");
    assert_eq!(r.body.doc_owner.team_member_id.as_deref(), Some("tm"));

    let rm = p.users_remove_request("d", &MemberSelector::DropboxId { dropbox_id: "id9".into() });
    assert!(
        matches!(rm.kind, RequestKind::Rpc { body } if body == r#"{"doc_id":"d","member":{".tag":"dropbox_id","dropbox_id":"id9"}}"#)
    );
}

#[test]
fn update_error_variant_decodes() {
    let err = r#"{"error_summary":"x","error":{".tag":"revision_mismatch"},"user_message":"u"}"#;
    match dropbox_rs::paper::update_response(409, vec![], err) {
        Err(ErrorKind::PaperDocUpdateErr(e)) => {
            assert_eq!(
                e.error,
                dropbox_rs::paper::errors::PaperDocUpdateError::RevisionMismatch
            );
            assert_eq!(e.user_message.as_deref(), Some("u"));
        }
        _ => panic!("expected the update error variant"),
    }
}

#[test]
fn users_add_with_no_members_sends_an_empty_list() {
    let p = paper();
    let req = p.users_add("d").request();
    assert!(
        matches!(req.kind, RequestKind::Rpc { body } if body == r#"{"doc_id":"d","members":[],"quiet":false}"#)
    );
}

#[test]
fn argument_objects_round_trip_through_wire_text() {
    let arg = AddPaperDocUser {
        doc_id: "d".to_owned(),
        members: vec![AddMember {
            member: MemberSelector::DropboxId { dropbox_id: "x1".to_owned() },
            permission_level: PaperDocPermissionLevel::ViewAndComment,
        }],
        custom_message: None,
        quiet: true,
    };
    let text = json_to_string(&add_paper_doc_user_json(&arg));
    let back = add_paper_doc_user_from_json(&json_from_str(&text).expect("wire text parses"))
        .expect("the argument decodes back");
    assert_eq!(back.doc_id, arg.doc_id);
    assert_eq!(back.members.len(), 1);
    assert_eq!(back.members[0].member, arg.members[0].member);
    assert_eq!(back.members[0].permission_level, arg.members[0].permission_level);
    assert_eq!(back.custom_message, None);
    assert!(back.quiet);
}
