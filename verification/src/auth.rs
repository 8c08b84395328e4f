//! The OAuth2 authorization flow: building the authorize URL, parsing the
//! redirect callback, exchanging an authorization code for a token, the
//! OAuth1 token upgrade, and token revocation.
//!
//! Everything here is pure: the functions build requests and decode
//! response texts, and the caller performs the round trips.

use vstd::prelude::*;

use crate::errors::ErrorKind;
use crate::form::{
    e_find_char, e_lookup_last, e_query_pairs, find_char, form_encode_onto, form_encoded,
    lookup_last, query_pairs,
};
use crate::http::errors::APIError;
use crate::http::{
    is_success_status, split_envelope, spec_split_envelope, AuthScheme, AuthSchemeV,
    HasAccessToken, HttpRequest, RawOutcome, RawOutcomeV, RequestKind, RequestKindV, Response,
    ResponseV, success_status,
};
use crate::json::{
    e_opt_str_field, e_str_field, e_tag_of, json_text, json_to_string, json_view_fields,
    lemma_json_view_fields, opt_str_field, parse_json, str_eq, str_field, str_to_chars, tag_of,
    Json, JsonV,
};

verus! {

broadcast use vstd::std_specs::vec::group_vec_axioms, vstd::seq::group_seq_axioms, vstd::string::group_string_axioms;

// ---------------------------------------------------------------------------
// The authorize URL.
// ---------------------------------------------------------------------------

pub open spec fn spec_authorization_uri(
    client_id: Seq<char>,
    redirect_uri: Seq<char>,
    response_type: Seq<char>,
) -> Seq<char> {
    "https://www.dropbox.com/oauth2/authorize?client_id="@ + form_encoded(client_id)
        + "&redirect_uri="@ + form_encoded(redirect_uri) + "&response_type="@ + form_encoded(
        response_type,
    )
}

/// Builds the provider's authorize-endpoint URL with the three query
/// parameters, each form-encoded.  No I/O and no state.
pub fn build_authorization_uri(client_id: &str, redirect_uri: &str, response_type: &str) -> (r:
    String)
    ensures
        r@ == spec_authorization_uri(client_id@, redirect_uri@, response_type@),
{
    let mut out = "https://www.dropbox.com/oauth2/authorize?client_id=".to_owned();
    form_encode_onto(client_id, &mut out);
    out.append("&redirect_uri=");
    form_encode_onto(redirect_uri, &mut out);
    out.append("&response_type=");
    form_encode_onto(response_type, &mut out);
    proof {
        assert(out@ =~= spec_authorization_uri(client_id@, redirect_uri@, response_type@));
    }
    out
}

// ---------------------------------------------------------------------------
// Parsing the redirect callback.
// ---------------------------------------------------------------------------

/// What a successful redirect carries: either an authorization code
/// (code grant) or a complete token set (implicit grant).
#[derive(Debug)]
pub enum AuthorizationResponse {
    TokenResponse {
        access_token: String,
        token_type: String,
        uid: String,
        account_id: String,
        team_id: Option<String>,
        state: Option<String>,
    },
    CodeResponse { code: String, state: Option<String> },
}

pub enum AuthorizationResponseV {
    TokenResponse {
        access_token: Seq<char>,
        token_type: Seq<char>,
        uid: Seq<char>,
        account_id: Seq<char>,
        team_id: Option<Seq<char>>,
        state: Option<Seq<char>>,
    },
    CodeResponse { code: Seq<char>, state: Option<Seq<char>> },
}

impl DeepView for AuthorizationResponse {
    type V = AuthorizationResponseV;

    open spec fn deep_view(&self) -> AuthorizationResponseV {
        match self {
            AuthorizationResponse::TokenResponse {
                access_token,
                token_type,
                uid,
                account_id,
                team_id,
                state,
            } => AuthorizationResponseV::TokenResponse {
                access_token: access_token@,
                token_type: token_type@,
                uid: uid@,
                account_id: account_id@,
                team_id: team_id.deep_view(),
                state: state.deep_view(),
            },
            AuthorizationResponse::CodeResponse { code, state } => {
                AuthorizationResponseV::CodeResponse { code: code@, state: state.deep_view() }
            },
        }
    }
}

pub open spec fn is_alpha(c: char) -> bool {
    ('a' <= c && c <= 'z') || ('A' <= c && c <= 'Z')
}

pub open spec fn is_scheme_char(c: char) -> bool {
    is_alpha(c) || ('0' <= c && c <= '9') || c == '+' || c == '-' || c == '.'
}

/// A parseable URI: a scheme of at least one character, alphabetic first,
/// closed by a colon.
pub open spec fn valid_scheme(s: Seq<char>) -> bool {
    let k = find_char(s, 0, s.len() as int, ':');
    1 <= k && k < s.len() && is_alpha(s[0]) && (forall|j: int|
        0 <= j < k ==> is_scheme_char(s[j]))
}

/// Where the redirect's parameters live: the query if there is one, and
/// otherwise the fragment, as implicit-grant providers return parameters
/// after `#` rather than `?`.  An empty region means no parameters.
pub open spec fn spec_params_region(s: Seq<char>) -> (int, int) {
    let f = find_char(s, 0, s.len() as int, '#');
    let q = find_char(s, 0, f, '?');
    if q < f {
        (q + 1, f)
    } else if f < s.len() {
        (f + 1, s.len() as int)
    } else {
        (s.len() as int, s.len() as int)
    }
}

pub open spec fn or_empty(o: Option<Seq<char>>) -> Seq<char> {
    match o {
        Some(s) => s,
        None => Seq::empty(),
    }
}

/// Reads an authorization response off decoded parameter pairs.  A `code`
/// key wins; otherwise an `access_token` key with its `token_type` makes a
/// token response; with neither required key there is no response at all —
/// which is a legitimate null outcome, not an error.
pub open spec fn spec_auth_from_pairs(pairs: Seq<(Seq<char>, Seq<char>)>) -> Option<
    AuthorizationResponseV,
> {
    match lookup_last(pairs, "code"@) {
        Some(code) => Some(
            AuthorizationResponseV::CodeResponse { code, state: lookup_last(pairs, "state"@) },
        ),
        None => match lookup_last(pairs, "access_token"@) {
            Some(access_token) => match lookup_last(pairs, "token_type"@) {
                Some(token_type) => Some(
                    AuthorizationResponseV::TokenResponse {
                        access_token,
                        token_type,
                        uid: or_empty(lookup_last(pairs, "uid"@)),
                        account_id: or_empty(lookup_last(pairs, "account_id"@)),
                        team_id: lookup_last(pairs, "team_id"@),
                        state: lookup_last(pairs, "state"@),
                    },
                ),
                None => None,
            },
            None => None,
        },
    }
}

pub open spec fn spec_parse_authorization_response(s: Seq<char>) -> Option<
    AuthorizationResponseV,
> {
    if !valid_scheme(s) {
        None
    } else {
        let (from, end) = spec_params_region(s);
        spec_auth_from_pairs(query_pairs(s, from, end))
    }
}

/// Parses a redirect URI's parameters into an authorization response.
/// The query string is used when present; otherwise the fragment is read
/// as a query string.  Referentially transparent: no I/O.
#[verifier::loop_isolation(false)]
pub fn parse_authorization_response(redirect_uri: &str) -> (r: Option<AuthorizationResponse>)
    ensures
        r.deep_view() == spec_parse_authorization_response(redirect_uri@),
{
    let chars = str_to_chars(redirect_uri);
    let n = chars.len();
    let k = e_find_char(&chars, 0, n, ':');
    if k < 1 || k >= n {
        return None;
    }
    let c0 = chars[0];
    if !(('a' <= c0 && c0 <= 'z') || ('A' <= c0 && c0 <= 'Z')) {
        return None;
    }
    let mut j: usize = 0;
    while j < k
        invariant
            j <= k,
            k < n,
            n == chars@.len(),
            chars@ == redirect_uri@,
            forall|i: int| 0 <= i < j ==> is_scheme_char(chars@[i]),
        decreases k - j,
    {
        let c = chars[j];
        let ok = ('a' <= c && c <= 'z') || ('A' <= c && c <= 'Z') || ('0' <= c && c <= '9') || c
            == '+' || c == '-' || c == '.';
        if !ok {
            return None;
        }
        j = j + 1;
    }
    let f = e_find_char(&chars, 0, n, '#');
    let q = e_find_char(&chars, 0, f, '?');
    let from: usize;
    let end: usize;
    if q < f {
        from = q + 1;
        end = f;
    } else if f < n {
        from = f + 1;
        end = n;
    } else {
        from = n;
        end = n;
    }
    let pairs = e_query_pairs(&chars, from, end);
    match e_lookup_last(&pairs, "code") {
        Some(code) => Some(
            AuthorizationResponse::CodeResponse { code, state: e_lookup_last(&pairs, "state") },
        ),
        None => match e_lookup_last(&pairs, "access_token") {
            Some(access_token) => match e_lookup_last(&pairs, "token_type") {
                Some(token_type) => {
                    let uid = match e_lookup_last(&pairs, "uid") {
                        Some(u) => u,
                        None => String::new(),
                    };
                    let account_id = match e_lookup_last(&pairs, "account_id") {
                        Some(a) => a,
                        None => String::new(),
                    };
                    Some(
                        AuthorizationResponse::TokenResponse {
                            access_token,
                            token_type,
                            uid,
                            account_id,
                            team_id: e_lookup_last(&pairs, "team_id"),
                            state: e_lookup_last(&pairs, "state"),
                        },
                    )
                },
                None => None,
            },
            None => None,
        },
    }
}

} // verus!

verus! {

// ---------------------------------------------------------------------------
// The code-for-token exchange.
// ---------------------------------------------------------------------------

/// The form-encoded parameters of the token exchange, in wire order.
#[derive(Debug)]
pub struct AuthTokenRequest {
    pub code: String,
    pub grant_type: String,
    pub client_id: String,
    pub client_secret: String,
    pub redirect_uri: String,
}

pub struct AuthTokenRequestV {
    pub code: Seq<char>,
    pub grant_type: Seq<char>,
    pub client_id: Seq<char>,
    pub client_secret: Seq<char>,
    pub redirect_uri: Seq<char>,
}

impl DeepView for AuthTokenRequest {
    type V = AuthTokenRequestV;

    open spec fn deep_view(&self) -> AuthTokenRequestV {
        AuthTokenRequestV {
            code: self.code@,
            grant_type: self.grant_type@,
            client_id: self.client_id@,
            client_secret: self.client_secret@,
            redirect_uri: self.redirect_uri@,
        }
    }
}

/// The token request as a form-encoded query string, fields in wire order.
pub open spec fn spec_token_query(a: AuthTokenRequestV) -> Seq<char> {
    "code="@ + form_encoded(a.code) + "&grant_type="@ + form_encoded(a.grant_type)
        + "&client_id="@ + form_encoded(a.client_id) + "&client_secret="@ + form_encoded(
        a.client_secret,
    ) + "&redirect_uri="@ + form_encoded(a.redirect_uri)
}

pub fn token_query(a: &AuthTokenRequest) -> (r: String)
    ensures
        r@ == spec_token_query(a.deep_view()),
{
    let mut out = "code=".to_owned();
    form_encode_onto(a.code.as_str(), &mut out);
    out.append("&grant_type=");
    form_encode_onto(a.grant_type.as_str(), &mut out);
    out.append("&client_id=");
    form_encode_onto(a.client_id.as_str(), &mut out);
    out.append("&client_secret=");
    form_encode_onto(a.client_secret.as_str(), &mut out);
    out.append("&redirect_uri=");
    form_encode_onto(a.redirect_uri.as_str(), &mut out);
    proof {
        assert(out@ =~= spec_token_query(a.deep_view()));
    }
    out
}

/// Reads an authorization response off a JSON body, the way an untagged
/// union does: the token shape is tried first, then the code shape.
pub open spec fn spec_auth_response_json(j: JsonV) -> Option<AuthorizationResponseV> {
    match j {
        JsonV::Obj(fields) => {
            let at = str_field(fields, "access_token"@);
            let tt = str_field(fields, "token_type"@);
            let uid = str_field(fields, "uid"@);
            let aid = str_field(fields, "account_id"@);
            let team_id = opt_str_field(fields, "team_id"@);
            let state = opt_str_field(fields, "state"@);
            if at is Some && tt is Some && uid is Some && aid is Some && team_id is Some && state
                is Some {
                Some(
                    AuthorizationResponseV::TokenResponse {
                        access_token: at.unwrap(),
                        token_type: tt.unwrap(),
                        uid: uid.unwrap(),
                        account_id: aid.unwrap(),
                        team_id: team_id.unwrap(),
                        state: state.unwrap(),
                    },
                )
            } else {
                match (str_field(fields, "code"@), opt_str_field(fields, "state"@)) {
                    (Some(code), Some(state)) => Some(
                        AuthorizationResponseV::CodeResponse { code, state },
                    ),
                    _ => None,
                }
            }
        },
        _ => None,
    }
}

pub fn auth_response_from_json(j: &Json) -> (r: Option<AuthorizationResponse>)
    ensures
        r.deep_view() == spec_auth_response_json(j@),
{
    match j {
        Json::Obj(fields) => {
            let at = e_str_field(fields, "access_token");
            let tt = e_str_field(fields, "token_type");
            let uid = e_str_field(fields, "uid");
            let aid = e_str_field(fields, "account_id");
            let team_id = e_opt_str_field(fields, "team_id");
            let state = e_opt_str_field(fields, "state");
            match (at, tt, uid, aid, team_id, state) {
                (Some(at), Some(tt), Some(uid), Some(aid), Some(team_id), Some(state)) => Some(
                    AuthorizationResponse::TokenResponse {
                        access_token: at,
                        token_type: tt,
                        uid,
                        account_id: aid,
                        team_id,
                        state,
                    },
                ),
                _ => {
                    match (e_str_field(fields, "code"), e_opt_str_field(fields, "state")) {
                        (Some(code), Some(state)) => Some(
                            AuthorizationResponse::CodeResponse { code, state },
                        ),
                        _ => None,
                    }
                },
            }
        },
        _ => None,
    }
}

/// The application credentials of the token-exchange endpoints.
#[derive(Debug)]
pub struct AuthOperations {
    pub client_id: String,
    pub client_secret: String,
    pub redirect_uri: String,
}

/// What `fetch_token_response` yields for a body text.
pub open spec fn spec_fetch_token_response(status: u16, body: Seq<char>) -> Result<
    AuthorizationResponseV,
    crate::errors::ErrorKindV,
> {
    match parse_json(body) {
        Some(j) => match spec_auth_response_json(j) {
            Some(a) => Ok(a),
            None => Err(crate::errors::ErrorKindV::Decode { status, body }),
        },
        None => Err(crate::errors::ErrorKindV::Decode { status, body }),
    }
}

impl AuthOperations {
    pub fn new(client_id: &str, client_secret: &str, redirect_uri: &str) -> (r: AuthOperations)
        ensures
            r.client_id@ == client_id@,
            r.client_secret@ == client_secret@,
            r.redirect_uri@ == redirect_uri@,
    {
        AuthOperations {
            client_id: client_id.to_owned(),
            client_secret: client_secret.to_owned(),
            redirect_uri: redirect_uri.to_owned(),
        }
    }

    /// The POST that exchanges an authorization code for a token: the fixed
    /// token endpoint with the form-encoded parameters in its query, no
    /// body and no bearer credential.
    pub fn fetch_token_request(&self, code: &str) -> (r: HttpRequest)
        ensures
            r.deep_view().url == "https://api.dropboxapi.com/oauth2/token?"@ + spec_token_query(
                AuthTokenRequestV {
                    code: code@,
                    grant_type: "authorization_code"@,
                    client_id: self.client_id@,
                    client_secret: self.client_secret@,
                    redirect_uri: self.redirect_uri@,
                },
            ),
            r.deep_view().auth == AuthSchemeV::Anonymous,
            r.deep_view().kind == (RequestKindV::Rpc { body: Seq::<char>::empty() }),
    {
        let token_req = AuthTokenRequest {
            code: code.to_owned(),
            grant_type: "authorization_code".to_owned(),
            client_id: self.client_id.clone(),
            client_secret: self.client_secret.clone(),
            redirect_uri: self.redirect_uri.clone(),
        };
        let mut url = "https://api.dropboxapi.com/oauth2/token?".to_owned();
        let q = token_query(&token_req);
        url.append(q.as_str());
        HttpRequest { url, auth: AuthScheme::Anonymous, kind: RequestKind::Rpc { body: String::new() } }
    }

    /// Decodes the token-exchange response body.  The provider answers this
    /// call with the authorization-response JSON itself, not with a typed
    /// error envelope, so anything that does not parse is a decode error.
    pub fn fetch_token_response(&self, status: u16, body: &str) -> (r: Result<
        AuthorizationResponse,
        ErrorKind,
    >)
        ensures
            crate::errors::res_view(r) == spec_fetch_token_response(status, body@),
    {
        match crate::json::json_from_str(body) {
            Some(j) => match auth_response_from_json(&j) {
                Some(a) => Ok(a),
                None => Err(ErrorKind::Decode { status, body: body.to_owned() }),
            },
            None => Err(ErrorKind::Decode { status, body: body.to_owned() }),
        }
    }
}

} // verus!

verus! {

// ---------------------------------------------------------------------------
// The OAuth1 token upgrade.
// ---------------------------------------------------------------------------

#[derive(PartialEq, Eq, Debug, Copy, Clone, Structural)]
pub enum TokenFromOAuth1Error {
    InvalidOauth1TokenInfo,
    AppIdMismatch,
}

impl DeepView for TokenFromOAuth1Error {
    type V = TokenFromOAuth1Error;

    open spec fn deep_view(&self) -> TokenFromOAuth1Error {
        *self
    }
}

pub open spec fn spec_token_from_oauth1_error(j: JsonV) -> Option<TokenFromOAuth1Error> {
    match tag_of(j) {
        Some(t) => {
            if t == "invalid_oauth1_token_info"@ {
                Some(TokenFromOAuth1Error::InvalidOauth1TokenInfo)
            } else if t == "app_id_mismatch"@ {
                Some(TokenFromOAuth1Error::AppIdMismatch)
            } else {
                None
            }
        },
        None => None,
    }
}

pub fn parse_token_from_oauth1_error(j: &Json) -> (r: Option<TokenFromOAuth1Error>)
    ensures
        r == spec_token_from_oauth1_error(j@),
{
    match e_tag_of(j) {
        Some(t) => {
            if str_eq(t.as_str(), "invalid_oauth1_token_info") {
                Some(TokenFromOAuth1Error::InvalidOauth1TokenInfo)
            } else if str_eq(t.as_str(), "app_id_mismatch") {
                Some(TokenFromOAuth1Error::AppIdMismatch)
            } else {
                None
            }
        },
        None => None,
    }
}

#[derive(Debug)]
pub struct TokenFromOAuth1Arg {
    pub oauth1_token: String,
    pub oauth1_token_secret: String,
}

pub struct TokenFromOAuth1ArgV {
    pub oauth1_token: Seq<char>,
    pub oauth1_token_secret: Seq<char>,
}

impl DeepView for TokenFromOAuth1Arg {
    type V = TokenFromOAuth1ArgV;

    open spec fn deep_view(&self) -> TokenFromOAuth1ArgV {
        TokenFromOAuth1ArgV {
            oauth1_token: self.oauth1_token@,
            oauth1_token_secret: self.oauth1_token_secret@,
        }
    }
}

/// The argument object on the wire.
pub open spec fn spec_token_from_oauth1_arg_json(a: TokenFromOAuth1ArgV) -> JsonV {
    JsonV::Obj(
        seq![
            ("oauth1_token"@, JsonV::Str(a.oauth1_token)),
            ("oauth1_token_secret"@, JsonV::Str(a.oauth1_token_secret)),
        ],
    )
}

pub fn token_from_oauth1_arg_json(a: &TokenFromOAuth1Arg) -> (r: Json)
    ensures
        r@ == spec_token_from_oauth1_arg_json(a.deep_view()),
{
    let mut fields: Vec<(String, Json)> = Vec::new();
    fields.push(("oauth1_token".to_owned(), Json::Str(a.oauth1_token.clone())));
    fields.push(("oauth1_token_secret".to_owned(), Json::Str(a.oauth1_token_secret.clone())));
    proof {
        lemma_json_view_fields(fields@);
        assert(json_view_fields(fields@) =~= seq![
            ("oauth1_token"@, JsonV::Str(a.oauth1_token@)),
            ("oauth1_token_secret"@, JsonV::Str(a.oauth1_token_secret@)),
        ]);
    }
    Json::Obj(fields)
}

#[derive(Debug)]
pub struct TokenFromOAuth1Result {
    pub oauth2_token: String,
}

pub struct TokenFromOAuth1ResultV {
    pub oauth2_token: Seq<char>,
}

impl DeepView for TokenFromOAuth1Result {
    type V = TokenFromOAuth1ResultV;

    open spec fn deep_view(&self) -> TokenFromOAuth1ResultV {
        TokenFromOAuth1ResultV { oauth2_token: self.oauth2_token@ }
    }
}

pub open spec fn spec_token_from_oauth1_result(j: JsonV) -> Option<TokenFromOAuth1ResultV> {
    match j {
        JsonV::Obj(fields) => match str_field(fields, "oauth2_token"@) {
            Some(t) => Some(TokenFromOAuth1ResultV { oauth2_token: t }),
            None => None,
        },
        _ => None,
    }
}

pub fn token_from_oauth1_result_from_json(j: &Json) -> (r: Option<TokenFromOAuth1Result>)
    ensures
        r.deep_view() == spec_token_from_oauth1_result(j@),
{
    match j {
        Json::Obj(fields) => match e_str_field(fields, "oauth2_token") {
            Some(t) => Some(TokenFromOAuth1Result { oauth2_token: t }),
            None => None,
        },
        _ => None,
    }
}

/// What `token_from_oauth1_response` yields: the typed result on a 2xx
/// body of the right shape, the typed error wrapped in its own variant on
/// a well-formed error body, and a decode error otherwise.
pub open spec fn spec_token_from_oauth1_response(
    status: u16,
    headers: Seq<(Seq<char>, Seq<char>)>,
    body: Seq<char>,
) -> Result<ResponseV<TokenFromOAuth1ResultV>, crate::errors::ErrorKindV> {
    match spec_split_envelope(status, body) {
        None => Err(crate::errors::ErrorKindV::Decode { status, body }),
        Some(RawOutcomeV::Success { json }) => match spec_token_from_oauth1_result(json) {
            Some(t) => Ok(ResponseV { body: t, status, headers }),
            None => Err(crate::errors::ErrorKindV::Decode { status, body }),
        },
        Some(RawOutcomeV::Failure { summary, error, user_message }) => {
            match spec_token_from_oauth1_error(error) {
                Some(e) => Err(
                    crate::errors::ErrorKindV::TokenFromOAuth1Err(
                        crate::http::errors::APIErrorV { status, body, error: e, user_message },
                    ),
                ),
                None => Err(crate::errors::ErrorKindV::Decode { status, body }),
            }
        },
    }
}

impl AuthOperations {
    /// The POST that upgrades an OAuth1 token, authenticated with the
    /// application credentials.
    pub fn token_from_oauth1_request(&self) -> (r: HttpRequest)
        ensures
            r.deep_view().url == "https://api.dropboxapi.com/2/auth/token/from_oauth1"@,
            r.deep_view().auth == (AuthSchemeV::Basic {
                user: self.client_id@,
                password: self.client_secret@,
            }),
            r.deep_view().kind == (RequestKindV::Rpc {
                body: json_text(
                    spec_token_from_oauth1_arg_json(
                        TokenFromOAuth1ArgV {
                            oauth1_token: self.client_id@,
                            oauth1_token_secret: self.client_secret@,
                        },
                    ),
                ),
            }),
    {
        let arg = TokenFromOAuth1Arg {
            oauth1_token: self.client_id.clone(),
            oauth1_token_secret: self.client_secret.clone(),
        };
        let body = json_to_string(&token_from_oauth1_arg_json(&arg));
        HttpRequest {
            url: "https://api.dropboxapi.com/2/auth/token/from_oauth1".to_owned(),
            auth: AuthScheme::Basic {
                user: self.client_id.clone(),
                password: self.client_secret.clone(),
            },
            kind: RequestKind::Rpc { body },
        }
    }

    /// Decodes the upgrade response into the new OAuth2 token or the typed
    /// error of this endpoint.
    pub fn token_from_oauth1_response(
        &self,
        status: u16,
        headers: Vec<(String, String)>,
        body: &str,
    ) -> (r: Result<Response<TokenFromOAuth1Result>, ErrorKind>)
        ensures
            crate::errors::res_view(r) == spec_token_from_oauth1_response(
                status,
                headers.deep_view(),
                body@,
            ),
    {
        match split_envelope(status, body) {
            None => Err(ErrorKind::Decode { status, body: body.to_owned() }),
            Some(RawOutcome::Success { json }) => {
                match token_from_oauth1_result_from_json(&json) {
                    Some(t) => Ok(Response { body: t, status, headers }),
                    None => Err(ErrorKind::Decode { status, body: body.to_owned() }),
                }
            },
            Some(RawOutcome::Failure { summary, error, user_message }) => {
                match parse_token_from_oauth1_error(&error) {
                    Some(e) => Err(
                        ErrorKind::TokenFromOAuth1Err(
                            APIError { status, body: body.to_owned(), error: e, user_message },
                        ),
                    ),
                    None => Err(ErrorKind::Decode { status, body: body.to_owned() }),
                }
            },
        }
    }
}

// ---------------------------------------------------------------------------
// Token revocation.
// ---------------------------------------------------------------------------

/// The POST that revokes the caller's token: bearer authentication, and a
/// `null` argument body as every argument-less RPC call sends.
pub fn revoke_token_request<C: HasAccessToken>(client: &C) -> (r: HttpRequest)
    ensures
        r.deep_view().url == "https://api.dropboxapi.com/2/auth/token/revoke"@,
        r.deep_view().auth == AuthSchemeV::Bearer(client.spec_token()),
        r.deep_view().kind == (RequestKindV::Rpc { body: json_text(JsonV::Null) }),
{
    let body = json_to_string(&Json::Null);
    crate::http::rpc_request(client, "https://api.dropboxapi.com/2/auth/token/revoke".to_owned(), body)
}

/// What `revoke_token_response` yields.  Success is any 2xx: the provider
/// answers revocation with an empty body, so nothing is read from it.  A
/// non-2xx must carry an error body with a `null` payload — this endpoint
/// has no typed errors, so decoding one is an internal-consistency
/// violation rather than a recoverable error.
pub open spec fn spec_revoke_token_response(
    status: u16,
    headers: Seq<(Seq<char>, Seq<char>)>,
    body: Seq<char>,
) -> Result<ResponseV<()>, crate::errors::ErrorKindV> {
    if is_success_status(status) {
        Ok(ResponseV { body: (), status, headers })
    } else {
        match spec_split_envelope(status, body) {
            Some(RawOutcomeV::Failure { summary, error: JsonV::Null, user_message }) => Err(
                crate::errors::ErrorKindV::ContractViolation { status, body },
            ),
            _ => Err(crate::errors::ErrorKindV::Decode { status, body }),
        }
    }
}

pub fn revoke_token_response(status: u16, headers: Vec<(String, String)>, body: &str) -> (r:
    Result<Response<()>, ErrorKind>)
    ensures
        crate::errors::res_view(r) == spec_revoke_token_response(status, headers.deep_view(), body@),
{
    if success_status(status) {
        Ok(Response { body: (), status, headers })
    } else {
        match split_envelope(status, body) {
            Some(RawOutcome::Failure { summary, error: Json::Null, user_message }) => Err(
                ErrorKind::ContractViolation { status, body: body.to_owned() },
            ),
            _ => Err(ErrorKind::Decode { status, body: body.to_owned() }),
        }
    }
}

} // verus!

verus! {

/// Reads the OAuth1-upgrade argument back.
pub open spec fn spec_token_from_oauth1_arg_from_json(j: JsonV) -> Option<TokenFromOAuth1ArgV> {
    match j {
        JsonV::Obj(fields) => match (str_field(fields, "oauth1_token"@), str_field(
            fields,
            "oauth1_token_secret"@,
        )) {
            (Some(t), Some(s)) => Some(
                TokenFromOAuth1ArgV { oauth1_token: t, oauth1_token_secret: s },
            ),
            _ => None,
        },
        _ => None,
    }
}

pub fn token_from_oauth1_arg_from_json(j: &Json) -> (r: Option<TokenFromOAuth1Arg>)
    ensures
        r.deep_view() == spec_token_from_oauth1_arg_from_json(j@),
{
    match j {
        Json::Obj(fields) => match (e_str_field(fields, "oauth1_token"), e_str_field(
            fields,
            "oauth1_token_secret",
        )) {
            (Some(t), Some(s)) => Some(
                TokenFromOAuth1Arg { oauth1_token: t, oauth1_token_secret: s },
            ),
            _ => None,
        },
        _ => None,
    }
}

} // verus!

verus! {

/// Law: the OAuth1-upgrade argument survives its wire round trip.
pub proof fn lemma_token_from_oauth1_arg_round_trip(a: TokenFromOAuth1ArgV)
    ensures
        spec_token_from_oauth1_arg_from_json(spec_token_from_oauth1_arg_json(a)) == Some(a),
        parse_json(json_text(spec_token_from_oauth1_arg_json(a))) == Some(
            spec_token_from_oauth1_arg_json(a),
        ),
{
    let j = spec_token_from_oauth1_arg_json(a);
    assert(crate::json::wf_json(j)) by {
        crate::json::lemma_wf_json_fields_all(j->Obj_0);
    }
    crate::json::lemma_parse_json_text(j);
    reveal_strlit("oauth1_token");
    reveal_strlit("oauth1_token_secret");
    assert(("oauth1_token"@).len() == 12);
    assert(("oauth1_token_secret"@).len() == 19);
    crate::json::lemma_strlit_ne("oauth1_token"@, "oauth1_token_secret"@);
    reveal_with_fuel(crate::json::obj_get, 10);
    assert(spec_token_from_oauth1_arg_from_json(j) == Some(a));
}

} // verus!

verus! {

// ---------------------------------------------------------------------------
// The laws of redirect parsing.
// ---------------------------------------------------------------------------

/// Law: a redirect URI whose parameters bind `code` and not `access_token`
/// parses to the code variant, the code equal to the bound value and the
/// state to its binding, if any.
pub proof fn lemma_parse_code_response(uri: Seq<char>)
    requires
        valid_scheme(uri),
        ({
            let (from, end) = spec_params_region(uri);
            lookup_last(query_pairs(uri, from, end), "code"@) is Some
        }),
        ({
            let (from, end) = spec_params_region(uri);
            lookup_last(query_pairs(uri, from, end), "access_token"@) is None
        }),
    ensures
        ({
            let (from, end) = spec_params_region(uri);
            spec_parse_authorization_response(uri) == Some(
                AuthorizationResponseV::CodeResponse {
                    code: lookup_last(query_pairs(uri, from, end), "code"@).unwrap(),
                    state: lookup_last(query_pairs(uri, from, end), "state"@),
                },
            )
        }),
{
}

/// Law: a redirect URI binding neither `code` nor `access_token` parses to
/// no response at all — a null outcome, never an error.
pub proof fn lemma_parse_no_response(uri: Seq<char>)
    requires
        ({
            let (from, end) = spec_params_region(uri);
            lookup_last(query_pairs(uri, from, end), "code"@) is None && lookup_last(
                query_pairs(uri, from, end),
                "access_token"@,
            ) is None
        }),
    ensures
        spec_parse_authorization_response(uri) is None,
{
}

/// Law: a redirect URI with its parameters only in the fragment parses
/// exactly as the same URI with `?` in place of its `#`: the fragment is
/// read as the query string would be.
pub proof fn lemma_fragment_fallback(uri: Seq<char>, f: int)
    requires
        0 <= f < uri.len(),
        uri[f] == '#',
        forall|k: int| 0 <= k < uri.len() ==> uri[k] != '?',
        forall|k: int| 0 <= k < uri.len() && k != f ==> uri[k] != '#',
    ensures
        spec_parse_authorization_response(uri) == spec_parse_authorization_response(
            uri.update(f, '?'),
        ),
{
    let s2 = uri.update(f, '?');
    let n = uri.len() as int;
    assert(s2.len() == n);
    assert(forall|k: int| 0 <= k < n && k != f ==> s2[k] == uri[k]);
    assert(s2[f] == '?');
    // The scheme reads the same: the changed character is neither a colon
    // nor a scheme character under either reading.
    assert(forall|k: int| 0 <= k < n ==> (uri[k] == ':') == (#[trigger] s2[k] == ':'));
    crate::form::lemma_find_char_frame(uri, s2, 0, n, ':');
    let kc = find_char(uri, 0, n, ':');
    assert(valid_scheme(uri) == valid_scheme(s2)) by {
        if 1 <= kc < n {
            assert(uri[0] == s2[0] || f == 0);
            if f == 0 {
                assert(!is_alpha(uri[0]) && !is_alpha(s2[0]));
            }
            assert(forall|j: int|
                0 <= j < kc ==> is_scheme_char(#[trigger] uri[j]) == is_scheme_char(s2[j]));
        }
    }
    // The parameter regions coincide: the query of the rewritten text
    // sits where the fragment sat.
    crate::form::lemma_find_char_hit(uri, 0, n, '#', f);
    crate::form::lemma_find_char_miss(uri, 0, f, '?');
    crate::form::lemma_find_char_miss(s2, 0, n, '#');
    crate::form::lemma_find_char_hit(s2, 0, n, '?', f);
    assert(find_char(uri, 0, n, '#') == f);
    assert(find_char(uri, 0, f, '?') == f);
    assert(spec_params_region(uri) == (f + 1, n));
    assert(find_char(s2, 0, n, '#') == n);
    assert(find_char(s2, 0, n, '?') == f);
    assert(spec_params_region(s2) == (f + 1, n));
    // And the pairs of that region are read off unchanged characters.
    crate::form::lemma_query_pairs_frame(uri, s2, f + 1, n);
}

} // verus!
