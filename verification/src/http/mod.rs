//! The HTTP marshalling layer: the request descriptions the library builds,
//! the response envelope decoder that separates typed successes from typed
//! error bodies, and the header conventions of the content-transfer calls.
//!
//! Nothing here performs I/O: a request is a plain value for the caller to
//! send, and a response is decoded from the plain status, headers and body
//! text the caller read.

use vstd::prelude::*;

use crate::json::{
    clone_json, e_obj_get, json_from_str, json_view, json_view_fields, obj_get, parse_json, Json,
    JsonV,
};

pub mod errors;
pub mod header;

use errors::{APIError, APIErrorV};

verus! {

broadcast use vstd::std_specs::vec::group_vec_axioms, vstd::seq::group_seq_axioms, vstd::utf8::char_is_scalar, vstd::string::group_string_axioms;

// ---------------------------------------------------------------------------
// Requests.
// ---------------------------------------------------------------------------

/// How a request authenticates itself.
#[derive(Debug)]
pub enum AuthScheme {
    Anonymous,
    Bearer(String),
    Basic { user: String, password: String },
}

pub enum AuthSchemeV {
    Anonymous,
    Bearer(Seq<char>),
    Basic { user: Seq<char>, password: Seq<char> },
}

impl DeepView for AuthScheme {
    type V = AuthSchemeV;

    open spec fn deep_view(&self) -> AuthSchemeV {
        match self {
            AuthScheme::Anonymous => AuthSchemeV::Anonymous,
            AuthScheme::Bearer(t) => AuthSchemeV::Bearer(t@),
            AuthScheme::Basic { user, password } => AuthSchemeV::Basic {
                user: user@,
                password: password@,
            },
        }
    }
}

/// The three request encodings of the remote API.
#[derive(Debug)]
pub enum RequestKind {
    /// JSON body, `Content-Type: application/json`.
    Rpc { body: String },
    /// Binary body supplied by the caller, JSON arguments in the
    /// side-channel header.
    ContentUpload { arg_header: String },
    /// No request body; JSON arguments in the side-channel header, binary
    /// response body.
    ContentDownload { arg_header: String },
}

pub enum RequestKindV {
    Rpc { body: Seq<char> },
    ContentUpload { arg_header: Seq<char> },
    ContentDownload { arg_header: Seq<char> },
}

impl DeepView for RequestKind {
    type V = RequestKindV;

    open spec fn deep_view(&self) -> RequestKindV {
        match self {
            RequestKind::Rpc { body } => RequestKindV::Rpc { body: body@ },
            RequestKind::ContentUpload { arg_header } => RequestKindV::ContentUpload {
                arg_header: arg_header@,
            },
            RequestKind::ContentDownload { arg_header } => RequestKindV::ContentDownload {
                arg_header: arg_header@,
            },
        }
    }
}

/// A fully described HTTP POST for the caller to issue.
#[derive(Debug)]
pub struct HttpRequest {
    pub url: String,
    pub auth: AuthScheme,
    pub kind: RequestKind,
}

pub struct HttpRequestV {
    pub url: Seq<char>,
    pub auth: AuthSchemeV,
    pub kind: RequestKindV,
}

impl DeepView for HttpRequest {
    type V = HttpRequestV;

    open spec fn deep_view(&self) -> HttpRequestV {
        HttpRequestV {
            url: self.url@,
            auth: self.auth.deep_view(),
            kind: self.kind.deep_view(),
        }
    }
}

/// Anything that holds a bearer credential and can issue authenticated
/// calls.
pub trait HasAccessToken {
    spec fn spec_token(&self) -> Seq<char>;

    fn access_token(&self) -> (r: &str)
        ensures
            r@ == self.spec_token(),
    ;
}

// ---------------------------------------------------------------------------
// Responses.
// ---------------------------------------------------------------------------

/// A decoded success response of an RPC call.
#[derive(Debug)]
pub struct Response<T> {
    pub body: T,
    pub status: u16,
    pub headers: Vec<(String, String)>,
}

pub struct ResponseV<T> {
    pub body: T,
    pub status: u16,
    pub headers: Seq<(Seq<char>, Seq<char>)>,
}

impl<T: DeepView> DeepView for Response<T> {
    type V = ResponseV<T::V>;

    open spec fn deep_view(&self) -> ResponseV<T::V> {
        ResponseV {
            body: self.body.deep_view(),
            status: self.status,
            headers: self.headers.deep_view(),
        }
    }
}

/// A decoded success response of a content-download call: the metadata that
/// came in the dedicated response header.  The binary body itself stays with
/// the caller, to be read on demand.
#[derive(Debug)]
pub struct ContentResponse<T> {
    pub body: T,
    pub status: u16,
    pub headers: Vec<(String, String)>,
}

pub struct ContentResponseV<T> {
    pub body: T,
    pub status: u16,
    pub headers: Seq<(Seq<char>, Seq<char>)>,
}

impl<T: DeepView> DeepView for ContentResponse<T> {
    type V = ContentResponseV<T::V>;

    open spec fn deep_view(&self) -> ContentResponseV<T::V> {
        ContentResponseV {
            body: self.body.deep_view(),
            status: self.status,
            headers: self.headers.deep_view(),
        }
    }
}

// ---------------------------------------------------------------------------
// The envelope decoder.
// ---------------------------------------------------------------------------

/// The status classes the envelope discriminates on: 2xx is success,
/// everything else is expected to carry a typed error body.
pub open spec fn is_success_status(status: u16) -> bool {
    200 <= status && status < 300
}

pub fn success_status(status: u16) -> (r: bool)
    ensures
        r == is_success_status(status),
{
    200 <= status && status < 300
}

/// A response body split along the status class: the parsed JSON of a
/// success, or the three fields of a well-formed error body.
#[derive(Debug)]
pub enum RawOutcome {
    Success { json: Json },
    Failure { summary: String, error: Json, user_message: Option<String> },
}

pub enum RawOutcomeV {
    Success { json: JsonV },
    Failure { summary: Seq<char>, error: JsonV, user_message: Option<Seq<char>> },
}

impl DeepView for RawOutcome {
    type V = RawOutcomeV;

    open spec fn deep_view(&self) -> RawOutcomeV {
        match self {
            RawOutcome::Success { json } => RawOutcomeV::Success { json: json@ },
            RawOutcome::Failure { summary, error, user_message } => RawOutcomeV::Failure {
                summary: summary@,
                error: error@,
                user_message: user_message.deep_view(),
            },
        }
    }
}

/// The error-body contract, read off a parsed JSON value: an object with a
/// string `error_summary`, an `error` payload, and a `user_message` that is
/// a string, `null`, or absent.  Anything else breaks the wire contract.
pub open spec fn spec_error_body(j: JsonV) -> Option<(Seq<char>, JsonV, Option<Seq<char>>)> {
    match j {
        JsonV::Obj(fields) => {
            let summary = obj_get(fields, "error_summary"@);
            let error = obj_get(fields, "error"@);
            let um = obj_get(fields, "user_message"@);
            match (summary, error) {
                (Some(JsonV::Str(s)), Some(e)) => match um {
                    None => Some((s, e, None)),
                    Some(JsonV::Null) => Some((s, e, None)),
                    Some(JsonV::Str(m)) => Some((s, e, Some(m))),
                    Some(_) => None,
                },
                _ => None,
            }
        },
        _ => None,
    }
}

/// What the envelope decoder yields for a status and a body text, when the
/// body meets the wire contract of its status class.
pub open spec fn spec_split_envelope(status: u16, body: Seq<char>) -> Option<RawOutcomeV> {
    match parse_json(body) {
        None => None,
        Some(j) => {
            if is_success_status(status) {
                Some(RawOutcomeV::Success { json: j })
            } else {
                match spec_error_body(j) {
                    Some((summary, error, um)) => Some(
                        RawOutcomeV::Failure { summary, error, user_message: um },
                    ),
                    None => None,
                }
            }
        },
    }
}

/// Splits a response into the parsed success JSON or the parsed error body.
/// `None` is the hard decode error: a body that does not meet the wire
/// contract of its status class is never silently absorbed.
pub fn split_envelope(status: u16, body: &str) -> (r: Option<RawOutcome>)
    ensures
        r.deep_view() == spec_split_envelope(status, body@),
{
    let parsed = json_from_str(body);
    match parsed {
        None => None,
        Some(j) => {
            if success_status(status) {
                Some(RawOutcome::Success { json: j })
            } else {
                match &j {
                    Json::Obj(fields) => {
                        let summary: String = match e_obj_get(fields, "error_summary") {
                            Some(Json::Str(s)) => s.clone(),
                            _ => {
                                return None;
                            },
                        };
                        let error: Json = match e_obj_get(fields, "error") {
                            Some(e) => clone_json(e),
                            None => {
                                return None;
                            },
                        };
                        let user_message: Option<String> = match e_obj_get(
                            fields,
                            "user_message",
                        ) {
                            None => None,
                            Some(Json::Null) => None,
                            Some(Json::Str(m)) => Some(m.clone()),
                            Some(_) => {
                                return None;
                            },
                        };
                        Some(RawOutcome::Failure { summary, error, user_message })
                    },
                    _ => None,
                }
            }
        },
    }
}

// ---------------------------------------------------------------------------
// Header lookup for the content-download metadata.
// ---------------------------------------------------------------------------

/// ASCII lowercasing of one character, as HTTP header names compare.
pub open spec fn lower_char(c: char) -> char {
    if 'A' <= c && c <= 'Z' {
        (c as u32 + 32) as char
    } else {
        c
    }
}

pub open spec fn lower_chars(s: Seq<char>) -> Seq<char> {
    Seq::new(s.len(), |i: int| lower_char(s[i]))
}

fn e_lower_char(c: char) -> (r: char)
    ensures
        r == lower_char(c),
{
    if 'A' <= c && c <= 'Z' {
        match crate::json::char_from_u32(c as u32 + 32) {
            Some(d) => d,
            None => c,
        }
    } else {
        c
    }
}

/// Compares two strings as header names: equal up to ASCII case.
pub fn header_name_eq(a: &str, b: &str) -> (r: bool)
    ensures
        r == (lower_chars(a@) == lower_chars(b@)),
{
    let na = a.unicode_len();
    let nb = b.unicode_len();
    if na != nb {
        proof {
            assert(lower_chars(a@).len() != lower_chars(b@).len());
        }
        return false;
    }
    let mut i: usize = 0;
    while i < na
        invariant
            i <= na,
            na == a@.len(),
            na == b@.len(),
            forall|k: int| 0 <= k < i ==> lower_char(a@[k]) == lower_char(b@[k]),
        decreases na - i,
    {
        if e_lower_char(a.get_char(i)) != e_lower_char(b.get_char(i)) {
            proof {
                assert(lower_chars(a@)[i as int] != lower_chars(b@)[i as int]);
            }
            return false;
        }
        i = i + 1;
    }
    proof {
        assert(lower_chars(a@) =~= lower_chars(b@));
    }
    true
}

/// The value of the first header whose name matches, up to ASCII case.
pub open spec fn header_lookup(headers: Seq<(Seq<char>, Seq<char>)>, name: Seq<char>) -> Option<
    Seq<char>,
>
    decreases headers.len(),
{
    if headers.len() == 0 {
        None
    } else if lower_chars(headers[0].0) == lower_chars(name) {
        Some(headers[0].1)
    } else {
        header_lookup(headers.subrange(1, headers.len() as int), name)
    }
}

/// Finds a header by name, as the download decoder needs.
pub fn find_header<'a>(headers: &'a Vec<(String, String)>, name: &str) -> (r: Option<&'a String>)
    ensures
        match r {
            Some(v) => header_lookup(headers.deep_view(), name@) == Some(v@),
            None => header_lookup(headers.deep_view(), name@) is None,
        },
{
    let n = headers.len();
    let mut i: usize = 0;
    proof {
        assert(headers.deep_view().subrange(0, n as int) =~= headers.deep_view());
    }
    while i < n
        invariant
            i <= n,
            n == headers@.len(),
            headers.deep_view().len() == n,
            forall|k: int|
                0 <= k < n ==> #[trigger] headers.deep_view()[k] == (
                    headers@[k].0@,
                    headers@[k].1@,
                ),
            header_lookup(headers.deep_view(), name@) == header_lookup(
                headers.deep_view().subrange(i as int, n as int),
                name@,
            ),
        decreases n - i,
    {
        proof {
            let dv = headers.deep_view();
            let tail = dv.subrange(i as int, n as int);
            assert(tail[0] == dv[i as int]);
            assert(tail.subrange(1, tail.len() as int) =~= dv.subrange(i as int + 1, n as int));
        }
        if header_name_eq(headers[i].0.as_str(), name) {
            return Some(&headers[i].1);
        }
        i = i + 1;
    }
    proof {
        assert(headers.deep_view().subrange(n as int, n as int) =~= Seq::<
            (Seq<char>, Seq<char>),
        >::empty());
    }
    None
}

} // verus!

verus! {

// ---------------------------------------------------------------------------
// The envelope laws, stated on their own.
// ---------------------------------------------------------------------------

/// Law: a success-class response is decoded by parsing the whole body as
/// JSON — a body that fails to parse is a hard decode failure, never a
/// silently-defaulted value.
pub proof fn lemma_envelope_success(status: u16, body: Seq<char>)
    requires
        is_success_status(status),
    ensures
        spec_split_envelope(status, body) == match parse_json(body) {
            Some(j) => Some(RawOutcomeV::Success { json: j }),
            None => None,
        },
{
}

/// Law: every non-2xx response is read against the error-body contract:
/// a well-formed `{error_summary, error, user_message}` body yields the
/// typed failure with exactly the parsed payload, the message absent when
/// the field is `null` or missing; anything else is a hard decode failure.
pub proof fn lemma_envelope_failure(status: u16, body: Seq<char>)
    requires
        !is_success_status(status),
    ensures
        spec_split_envelope(status, body) == match parse_json(body) {
            Some(j) => match spec_error_body(j) {
                Some((summary, error, user_message)) => Some(
                    RawOutcomeV::Failure { summary, error, user_message },
                ),
                None => None,
            },
            None => None,
        },
{
}

} // verus!

verus! {

// ---------------------------------------------------------------------------
// Request construction, shared by every authenticated endpoint.
// ---------------------------------------------------------------------------

/// An RPC call: bearer authentication and a JSON body.
pub fn rpc_request<C: HasAccessToken>(client: &C, url: String, body: String) -> (r: HttpRequest)
    ensures
        r.deep_view() == (HttpRequestV {
            url: url@,
            auth: AuthSchemeV::Bearer(client.spec_token()),
            kind: RequestKindV::Rpc { body: body@ },
        }),
{
    HttpRequest {
        url,
        auth: AuthScheme::Bearer(client.access_token().to_owned()),
        kind: RequestKind::Rpc { body },
    }
}

/// A content upload: bearer authentication, the JSON arguments in the
/// side-channel header, the binary body supplied by the caller.
pub fn content_upload_request<C: HasAccessToken>(client: &C, url: String, arg_header: String) -> (r:
    HttpRequest)
    ensures
        r.deep_view() == (HttpRequestV {
            url: url@,
            auth: AuthSchemeV::Bearer(client.spec_token()),
            kind: RequestKindV::ContentUpload { arg_header: arg_header@ },
        }),
{
    HttpRequest {
        url,
        auth: AuthScheme::Bearer(client.access_token().to_owned()),
        kind: RequestKind::ContentUpload { arg_header },
    }
}

/// A content download: bearer authentication and the JSON arguments in the
/// side-channel header; the response body will be the content itself.
pub fn content_download_request<C: HasAccessToken>(
    client: &C,
    url: String,
    arg_header: String,
) -> (r: HttpRequest)
    ensures
        r.deep_view() == (HttpRequestV {
            url: url@,
            auth: AuthSchemeV::Bearer(client.spec_token()),
            kind: RequestKindV::ContentDownload { arg_header: arg_header@ },
        }),
{
    HttpRequest {
        url,
        auth: AuthScheme::Bearer(client.access_token().to_owned()),
        kind: RequestKind::ContentDownload { arg_header },
    }
}

} // verus!
