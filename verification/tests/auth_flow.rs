//! The authorization flow: URL building, redirect parsing, token exchange.

use dropbox_rs::auth::{
    build_authorization_uri, parse_authorization_response, revoke_token_request,
    revoke_token_response, AuthOperations, AuthorizationResponse, TokenFromOAuth1Error,
    TokenFromOAuth1Result,
};
use dropbox_rs::errors::ErrorKind;
use dropbox_rs::http::{AuthScheme, RequestKind};

#[test]
fn builds_the_authorize_url() {
    let url = build_authorization_uri("client 1", "http://localhost/cb", "code");
    assert_eq!(
        url,
        "https://www.dropbox.com/oauth2/authorize?client_id=client+1\
         &redirect_uri=http%3A%2F%2Flocalhost%2Fcb&response_type=code"
    );
}

#[test]
fn parses_a_code_redirect() {
    let r = parse_authorization_response("http://localhost/cb?code=abc123&state=xyz");
    match r {
        Some(AuthorizationResponse::CodeResponse { code, state }) => {
            assert_eq!(code, "abc123");
            assert_eq!(state.as_deref(), Some("xyz"));
        }
        _ => panic!("expected the code variant"),
    }
}

#[test]
fn code_wins_and_decoding_applies() {
    let r = parse_authorization_response("http://x?code=a%20b+c&state=s&code=final");
    match r {
        Some(AuthorizationResponse::CodeResponse { code, .. }) => {
            // percent and plus decode, and the last binding wins
            assert_eq!(code, "final");
        }
        _ => panic!("expected the code variant"),
    }
    let r2 = parse_authorization_response("http://x?code=a%20b+c");
    match r2 {
        Some(AuthorizationResponse::CodeResponse { code, .. }) => assert_eq!(code, "a b c"),
        _ => panic!("expected the code variant"),
    }
}

#[test]
fn falls_back_to_the_fragment() {
    let q = parse_authorization_response(
        "http://localhost/cb?access_token=tok&token_type=bearer&uid=12&account_id=acct&state=st",
    );
    let f = parse_authorization_response(
        "http://localhost/cb#access_token=tok&token_type=bearer&uid=12&account_id=acct&state=st",
    );
    match (q, f) {
        (
            Some(AuthorizationResponse::TokenResponse {
                access_token: a1,
                token_type: t1,
                uid: u1,
                account_id: c1,
                team_id: m1,
                state: s1,
            }),
            Some(AuthorizationResponse::TokenResponse {
                access_token: a2,
                token_type: t2,
                uid: u2,
                account_id: c2,
                team_id: m2,
                state: s2,
            }),
        ) => {
            assert_eq!(a2, "tok");
            assert_eq!(t2, "bearer");
            assert_eq!(u2, "12");
            assert_eq!(c2, "acct");
            assert_eq!(m2, None);
            assert_eq!(s2.as_deref(), Some("st"));
            assert_eq!((a1, t1, u1, c1, m1, s1), (a2, t2, u2, c2, m2, s2));
        }
        _ => panic!("expected the token variant twice"),
    }
}

#[test]
fn yields_no_response_without_the_required_keys() {
    assert!(parse_authorization_response("http://localhost/cb?foo=bar&state=s").is_none());
    assert!(parse_authorization_response("http://localhost/cb").is_none());
    // an unparseable URI is also a null outcome, not a panic
    assert!(parse_authorization_response("not a uri").is_none());
    // a token without its type is not a usable response
    assert!(parse_authorization_response("http://x#access_token=t").is_none());
}

#[test]
fn builds_the_token_exchange_request() {
    let ops = AuthOperations::new("id 1", "sec/2", "http://localhost/cb");
    let req = ops.fetch_token_request("co de");
    assert_eq!(
        req.url,
        "https://api.dropboxapi.com/oauth2/token?code=co+de&grant_type=authorization_code\
         &client_id=id+1&client_secret=sec%2F2&redirect_uri=http%3A%2F%2Flocalhost%2Fcb"
    );
    assert!(matches!(req.auth, AuthScheme::Anonymous));
    assert!(matches!(req.kind, RequestKind::Rpc { body } if body.is_empty()));
}

#[test]
fn decodes_the_token_exchange_response() {
    let ops = AuthOperations::new("i", "s", "r");
    let body = r#"{"access_token":"tok","token_type":"bearer","uid":"1","account_id":"a"}"#;
    match ops.fetch_token_response(200, body) {
        Ok(AuthorizationResponse::TokenResponse { access_token, team_id, .. }) => {
            assert_eq!(access_token, "tok");
            assert_eq!(team_id, None);
        }
        _ => panic!("expected the token variant"),
    }
    match ops.fetch_token_response(200, "not json") {
        Err(ErrorKind::Decode { .. }) => {}
        _ => panic!("expected a decode error"),
    }
}

#[test]
fn revocation_accepts_any_success_and_rejects_the_rest() {
    let client = dropbox_rs::Dropbox::new("tkn");
    let req = revoke_token_request(&client);
    assert_eq!(req.url, "https://api.dropboxapi.com/2/auth/token/revoke");
    assert!(matches!(req.auth, AuthScheme::Bearer(t) if t == "tkn"));
    assert!(matches!(req.kind, RequestKind::Rpc { body } if body == "null"));

    assert!(revoke_token_response(200, vec![], "").is_ok());
    let well_formed_unit_error =
        r#"{"error_summary":"x","error":null,"user_message":null}"#;
    match revoke_token_response(400, vec![], well_formed_unit_error) {
        Err(ErrorKind::ContractViolation { status, .. }) => assert_eq!(status, 400),
        _ => panic!("a typed error on revoke breaks the provider contract"),
    }
    match revoke_token_response(400, vec![], "garbage") {
        Err(ErrorKind::Decode { .. }) => {}
        _ => panic!("expected a decode error"),
    }
}

#[test]
fn upgrades_an_oauth1_token() {
    let ops = AuthOperations::new("cid", "csec", "r");
    let req = ops.token_from_oauth1_request();
    assert_eq!(req.url, "https://api.dropboxapi.com/2/auth/token/from_oauth1");
    assert!(matches!(req.auth, AuthScheme::Basic { user, password } if user == "cid" && password == "csec"));
    assert!(
        matches!(req.kind, RequestKind::Rpc { body } if body == r#"{"oauth1_token":"cid","oauth1_token_secret":"csec"}"#)
    );

    match ops.token_from_oauth1_response(200, vec![], r#"{"oauth2_token":"new"}"#) {
        Ok(r) => {
            let TokenFromOAuth1Result { oauth2_token } = r.body;
            assert_eq!(oauth2_token, "new");
        }
        _ => panic!("expected the upgraded token"),
    }
    let err_body = r#"{"error_summary":"x","error":{".tag":"app_id_mismatch"},"user_message":null}"#;
    match ops.token_from_oauth1_response(409, vec![], err_body) {
        Err(ErrorKind::TokenFromOAuth1Err(e)) => {
            assert_eq!(e.error, TokenFromOAuth1Error::AppIdMismatch);
        }
        _ => panic!("expected the typed upgrade error"),
    }
}
