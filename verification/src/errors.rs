//! The library-wide error taxonomy.  Transport failures, decode failures
//! and typed API errors stay distinct; a typed error is wrapped in an
//! operation-tagged variant so call sites can propagate one type while
//! keeping the remote error for inspection.

use vstd::prelude::*;

use crate::auth::TokenFromOAuth1Error;
use crate::http::errors::{APIError, APIErrorV};
use crate::paper::errors::{
    DocLookupError, ListDocsCursorError, ListUsersCursorError, PaperApiCursorError,
    PaperDocCreateError, PaperDocUpdateError,
};

verus! {

/// What any call into the library can fail with.
#[derive(Debug)]
pub enum ErrorKind {
    /// Network, connection or request-construction failure, reported by the
    /// caller that performed the round trip.  Never mapped into a typed API
    /// error.
    Transport(String),
    /// A response body or header that does not parse as the expected shape:
    /// a contract mismatch with the remote side, never silently absorbed.
    Decode { status: u16, body: String },
    /// A download response without its metadata header: distinct from a
    /// decode failure, the response does not have the documented shape.
    HeaderNotFound(String),
    /// A well-formed typed error body on a call whose contract says none
    /// can occur: an internal-consistency violation, not recoverable.
    ContractViolation { status: u16, body: String },
    DocLookupErr(APIError<DocLookupError>),
    PaperDocCreateErr(APIError<PaperDocCreateError>),
    ListUsersCursorErr(APIError<ListUsersCursorError>),
    PaperApiCursorErr(APIError<PaperApiCursorError>),
    ListDocsCursorErr(APIError<ListDocsCursorError>),
    PaperDocUpdateErr(APIError<PaperDocUpdateError>),
    TokenFromOAuth1Err(APIError<TokenFromOAuth1Error>),
}

pub enum ErrorKindV {
    Transport(Seq<char>),
    Decode { status: u16, body: Seq<char> },
    HeaderNotFound(Seq<char>),
    ContractViolation { status: u16, body: Seq<char> },
    DocLookupErr(APIErrorV<DocLookupError>),
    PaperDocCreateErr(APIErrorV<PaperDocCreateError>),
    ListUsersCursorErr(APIErrorV<ListUsersCursorError>),
    PaperApiCursorErr(APIErrorV<PaperApiCursorError>),
    ListDocsCursorErr(APIErrorV<ListDocsCursorError>),
    PaperDocUpdateErr(APIErrorV<PaperDocUpdateError>),
    TokenFromOAuth1Err(APIErrorV<TokenFromOAuth1Error>),
}

impl DeepView for ErrorKind {
    type V = ErrorKindV;

    open spec fn deep_view(&self) -> ErrorKindV {
        match self {
            ErrorKind::Transport(m) => ErrorKindV::Transport(m@),
            ErrorKind::Decode { status, body } => ErrorKindV::Decode {
                status: *status,
                body: body@,
            },
            ErrorKind::HeaderNotFound(h) => ErrorKindV::HeaderNotFound(h@),
            ErrorKind::ContractViolation { status, body } => ErrorKindV::ContractViolation {
                status: *status,
                body: body@,
            },
            ErrorKind::DocLookupErr(e) => ErrorKindV::DocLookupErr(e.deep_view()),
            ErrorKind::PaperDocCreateErr(e) => ErrorKindV::PaperDocCreateErr(e.deep_view()),
            ErrorKind::ListUsersCursorErr(e) => ErrorKindV::ListUsersCursorErr(e.deep_view()),
            ErrorKind::PaperApiCursorErr(e) => ErrorKindV::PaperApiCursorErr(e.deep_view()),
            ErrorKind::ListDocsCursorErr(e) => ErrorKindV::ListDocsCursorErr(e.deep_view()),
            ErrorKind::PaperDocUpdateErr(e) => ErrorKindV::PaperDocUpdateErr(e.deep_view()),
            ErrorKind::TokenFromOAuth1Err(e) => ErrorKindV::TokenFromOAuth1Err(e.deep_view()),
        }
    }
}

/// The deep view of a result, which std does not give a view of its own.
pub open spec fn res_view<T: DeepView, E: DeepView>(r: Result<T, E>) -> Result<T::V, E::V> {
    match r {
        Ok(t) => Ok(t.deep_view()),
        Err(e) => Err(e.deep_view()),
    }
}

} // verus!
