//! The typed error payloads of the HTTP layer: the wire shape of an error
//! body and the decoded error carried back to callers.

use vstd::prelude::*;

verus! {

/// A decoded API error: the HTTP status, the raw body text kept for
/// diagnostics, the endpoint-specific typed payload, and the optional
/// human-readable message.
#[derive(Debug)]
pub struct APIError<E> {
    pub status: u16,
    pub body: String,
    pub error: E,
    pub user_message: Option<String>,
}

pub struct APIErrorV<E> {
    pub status: u16,
    pub body: Seq<char>,
    pub error: E,
    pub user_message: Option<Seq<char>>,
}

impl<E: DeepView> DeepView for APIError<E> {
    type V = APIErrorV<E::V>;

    open spec fn deep_view(&self) -> APIErrorV<E::V> {
        APIErrorV {
            status: self.status,
            body: self.body.deep_view(),
            error: self.error.deep_view(),
            user_message: self.user_message.deep_view(),
        }
    }
}

/// The wire shape of every error body:
/// `{"error_summary": ..., "error": ..., "user_message": ...}`.
#[derive(Debug)]
pub struct DropboxError<T> {
    pub error_summary: String,
    pub error: T,
    pub user_message: Option<String>,
}

pub struct DropboxErrorV<T> {
    pub error_summary: Seq<char>,
    pub error: T,
    pub user_message: Option<Seq<char>>,
}

impl<T: DeepView> DeepView for DropboxError<T> {
    type V = DropboxErrorV<T::V>;

    open spec fn deep_view(&self) -> DropboxErrorV<T::V> {
        DropboxErrorV {
            error_summary: self.error_summary.deep_view(),
            error: self.error.deep_view(),
            user_message: self.user_message.deep_view(),
        }
    }
}

} // verus!
