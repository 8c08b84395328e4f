//! The closed error unions the Paper endpoints can return, and their
//! readings from a decoded error payload.
//!
//! Each endpoint exposes exactly the failure modes its remote counterpart
//! can produce; the cursor-carrying endpoints nest the shared cursor-error
//! union inside their own, and that nesting is preserved, so callers can
//! tell a cursor problem from a lookup problem without losing the concrete
//! outer variant.

use vstd::prelude::*;

use crate::json::{e_tag_of, obj_get, str_eq, tag_of, Json, JsonV};

verus! {

#[derive(PartialEq, Eq, Debug, Copy, Clone, Structural)]
pub enum DocLookupError {
    InsufficientPermissions,
    DocNotFound,
}

#[derive(PartialEq, Eq, Debug, Copy, Clone, Structural)]
pub enum PaperDocCreateError {
    InsufficientPermissions,
    ContentMalformed,
    FolderNotFound,
    DocLengthExceeded,
    ImageSizeExceeded,
}

#[derive(PartialEq, Eq, Debug, Copy, Clone, Structural)]
pub enum PaperApiCursorError {
    ExpiredCursor,
    InvalidCursor,
    WrongUserInCursor,
    Reset,
}

#[derive(PartialEq, Eq, Debug, Copy, Clone, Structural)]
pub enum ListUsersCursorError {
    InsufficientPermissions,
    DocNotFound,
    CursorError { cursor_error: PaperApiCursorError },
}

#[derive(PartialEq, Eq, Debug, Copy, Clone, Structural)]
pub enum ListDocsCursorError {
    CursorError { cursor_error: PaperApiCursorError },
}

#[derive(PartialEq, Eq, Debug, Copy, Clone, Structural)]
pub enum PaperDocUpdateError {
    InsufficientPermissions,
    DocNotFound,
    ContentMalformed,
    RevisionMismatch,
    DocLengthExceeded,
    ImageSizeExceeded,
    DocArchived,
    DocDeleted,
}

// These unions are their own mathematical model.

impl DeepView for DocLookupError {
    type V = DocLookupError;

    open spec fn deep_view(&self) -> DocLookupError {
        *self
    }
}

impl DeepView for PaperDocCreateError {
    type V = PaperDocCreateError;

    open spec fn deep_view(&self) -> PaperDocCreateError {
        *self
    }
}

impl DeepView for PaperApiCursorError {
    type V = PaperApiCursorError;

    open spec fn deep_view(&self) -> PaperApiCursorError {
        *self
    }
}

impl DeepView for ListUsersCursorError {
    type V = ListUsersCursorError;

    open spec fn deep_view(&self) -> ListUsersCursorError {
        *self
    }
}

impl DeepView for ListDocsCursorError {
    type V = ListDocsCursorError;

    open spec fn deep_view(&self) -> ListDocsCursorError {
        *self
    }
}

impl DeepView for PaperDocUpdateError {
    type V = PaperDocUpdateError;

    open spec fn deep_view(&self) -> PaperDocUpdateError {
        *self
    }
}

// ---------------------------------------------------------------------------
// Readings of the error payloads.  A unit variant is an object whose `.tag`
// names it; the nested cursor union arrives inside a `cursor_error` field,
// with or without an outer `.tag`.
// ---------------------------------------------------------------------------

pub open spec fn spec_doc_lookup_error(j: JsonV) -> Option<DocLookupError> {
    match tag_of(j) {
        Some(t) => {
            if t == "insufficient_permissions"@ {
                Some(DocLookupError::InsufficientPermissions)
            } else if t == "doc_not_found"@ {
                Some(DocLookupError::DocNotFound)
            } else {
                None
            }
        },
        None => None,
    }
}

pub fn parse_doc_lookup_error(j: &Json) -> (r: Option<DocLookupError>)
    ensures
        r == spec_doc_lookup_error(j@),
{
    match e_tag_of(j) {
        Some(t) => {
            if str_eq(t.as_str(), "insufficient_permissions") {
                Some(DocLookupError::InsufficientPermissions)
            } else if str_eq(t.as_str(), "doc_not_found") {
                Some(DocLookupError::DocNotFound)
            } else {
                None
            }
        },
        None => None,
    }
}

pub open spec fn spec_paper_doc_create_error(j: JsonV) -> Option<PaperDocCreateError> {
    match tag_of(j) {
        Some(t) => {
            if t == "insufficient_permissions"@ {
                Some(PaperDocCreateError::InsufficientPermissions)
            } else if t == "content_malformed"@ {
                Some(PaperDocCreateError::ContentMalformed)
            } else if t == "folder_not_found"@ {
                Some(PaperDocCreateError::FolderNotFound)
            } else if t == "doc_length_exceeded"@ {
                Some(PaperDocCreateError::DocLengthExceeded)
            } else if t == "image_size_exceeded"@ {
                Some(PaperDocCreateError::ImageSizeExceeded)
            } else {
                None
            }
        },
        None => None,
    }
}

pub fn parse_paper_doc_create_error(j: &Json) -> (r: Option<PaperDocCreateError>)
    ensures
        r == spec_paper_doc_create_error(j@),
{
    match e_tag_of(j) {
        Some(t) => {
            if str_eq(t.as_str(), "insufficient_permissions") {
                Some(PaperDocCreateError::InsufficientPermissions)
            } else if str_eq(t.as_str(), "content_malformed") {
                Some(PaperDocCreateError::ContentMalformed)
            } else if str_eq(t.as_str(), "folder_not_found") {
                Some(PaperDocCreateError::FolderNotFound)
            } else if str_eq(t.as_str(), "doc_length_exceeded") {
                Some(PaperDocCreateError::DocLengthExceeded)
            } else if str_eq(t.as_str(), "image_size_exceeded") {
                Some(PaperDocCreateError::ImageSizeExceeded)
            } else {
                None
            }
        },
        None => None,
    }
}

pub open spec fn spec_paper_api_cursor_error(j: JsonV) -> Option<PaperApiCursorError> {
    match tag_of(j) {
        Some(t) => {
            if t == "expired_cursor"@ {
                Some(PaperApiCursorError::ExpiredCursor)
            } else if t == "invalid_cursor"@ {
                Some(PaperApiCursorError::InvalidCursor)
            } else if t == "wrong_user_in_cursor"@ {
                Some(PaperApiCursorError::WrongUserInCursor)
            } else if t == "reset"@ {
                Some(PaperApiCursorError::Reset)
            } else {
                None
            }
        },
        None => None,
    }
}

pub fn parse_paper_api_cursor_error(j: &Json) -> (r: Option<PaperApiCursorError>)
    ensures
        r == spec_paper_api_cursor_error(j@),
{
    match e_tag_of(j) {
        Some(t) => {
            if str_eq(t.as_str(), "expired_cursor") {
                Some(PaperApiCursorError::ExpiredCursor)
            } else if str_eq(t.as_str(), "invalid_cursor") {
                Some(PaperApiCursorError::InvalidCursor)
            } else if str_eq(t.as_str(), "wrong_user_in_cursor") {
                Some(PaperApiCursorError::WrongUserInCursor)
            } else if str_eq(t.as_str(), "reset") {
                Some(PaperApiCursorError::Reset)
            } else {
                None
            }
        },
        None => None,
    }
}

/// The nested cursor union of a payload: the value of its `cursor_error`
/// field, accepted when the outer `.tag` is absent or says `cursor_error`.
pub open spec fn spec_nested_cursor_error(j: JsonV) -> Option<PaperApiCursorError> {
    match j {
        JsonV::Obj(fields) => {
            let tag_ok = match tag_of(j) {
                None => true,
                Some(t) => t == "cursor_error"@,
            };
            if tag_ok {
                match obj_get(fields, "cursor_error"@) {
                    Some(inner) => spec_paper_api_cursor_error(inner),
                    None => None,
                }
            } else {
                None
            }
        },
        _ => None,
    }
}

pub fn parse_nested_cursor_error(j: &Json) -> (r: Option<PaperApiCursorError>)
    ensures
        r == spec_nested_cursor_error(j@),
{
    match j {
        Json::Obj(fields) => {
            let tag_ok = match e_tag_of(j) {
                None => true,
                Some(t) => str_eq(t.as_str(), "cursor_error"),
            };
            if tag_ok {
                match crate::json::e_obj_get(fields, "cursor_error") {
                    Some(inner) => parse_paper_api_cursor_error(inner),
                    None => None,
                }
            } else {
                None
            }
        },
        _ => None,
    }
}

pub open spec fn spec_list_users_cursor_error(j: JsonV) -> Option<ListUsersCursorError> {
    match tag_of(j) {
        Some(t) => {
            if t == "insufficient_permissions"@ {
                Some(ListUsersCursorError::InsufficientPermissions)
            } else if t == "doc_not_found"@ {
                Some(ListUsersCursorError::DocNotFound)
            } else {
                match spec_nested_cursor_error(j) {
                    Some(c) => Some(ListUsersCursorError::CursorError { cursor_error: c }),
                    None => None,
                }
            }
        },
        None => match spec_nested_cursor_error(j) {
            Some(c) => Some(ListUsersCursorError::CursorError { cursor_error: c }),
            None => None,
        },
    }
}

pub fn parse_list_users_cursor_error(j: &Json) -> (r: Option<ListUsersCursorError>)
    ensures
        r == spec_list_users_cursor_error(j@),
{
    match e_tag_of(j) {
        Some(t) => {
            if str_eq(t.as_str(), "insufficient_permissions") {
                Some(ListUsersCursorError::InsufficientPermissions)
            } else if str_eq(t.as_str(), "doc_not_found") {
                Some(ListUsersCursorError::DocNotFound)
            } else {
                match parse_nested_cursor_error(j) {
                    Some(c) => Some(ListUsersCursorError::CursorError { cursor_error: c }),
                    None => None,
                }
            }
        },
        None => match parse_nested_cursor_error(j) {
            Some(c) => Some(ListUsersCursorError::CursorError { cursor_error: c }),
            None => None,
        },
    }
}

pub open spec fn spec_list_docs_cursor_error(j: JsonV) -> Option<ListDocsCursorError> {
    match spec_nested_cursor_error(j) {
        Some(c) => Some(ListDocsCursorError::CursorError { cursor_error: c }),
        None => None,
    }
}

pub fn parse_list_docs_cursor_error(j: &Json) -> (r: Option<ListDocsCursorError>)
    ensures
        r == spec_list_docs_cursor_error(j@),
{
    match parse_nested_cursor_error(j) {
        Some(c) => Some(ListDocsCursorError::CursorError { cursor_error: c }),
        None => None,
    }
}

pub open spec fn spec_paper_doc_update_error(j: JsonV) -> Option<PaperDocUpdateError> {
    match tag_of(j) {
        Some(t) => {
            if t == "insufficient_permissions"@ {
                Some(PaperDocUpdateError::InsufficientPermissions)
            } else if t == "doc_not_found"@ {
                Some(PaperDocUpdateError::DocNotFound)
            } else if t == "content_malformed"@ {
                Some(PaperDocUpdateError::ContentMalformed)
            } else if t == "revision_mismatch"@ {
                Some(PaperDocUpdateError::RevisionMismatch)
            } else if t == "doc_length_exceeded"@ {
                Some(PaperDocUpdateError::DocLengthExceeded)
            } else if t == "image_size_exceeded"@ {
                Some(PaperDocUpdateError::ImageSizeExceeded)
            } else if t == "doc_archived"@ {
                Some(PaperDocUpdateError::DocArchived)
            } else if t == "doc_deleted"@ {
                Some(PaperDocUpdateError::DocDeleted)
            } else {
                None
            }
        },
        None => None,
    }
}

pub fn parse_paper_doc_update_error(j: &Json) -> (r: Option<PaperDocUpdateError>)
    ensures
        r == spec_paper_doc_update_error(j@),
{
    match e_tag_of(j) {
        Some(t) => {
            if str_eq(t.as_str(), "insufficient_permissions") {
                Some(PaperDocUpdateError::InsufficientPermissions)
            } else if str_eq(t.as_str(), "doc_not_found") {
                Some(PaperDocUpdateError::DocNotFound)
            } else if str_eq(t.as_str(), "content_malformed") {
                Some(PaperDocUpdateError::ContentMalformed)
            } else if str_eq(t.as_str(), "revision_mismatch") {
                Some(PaperDocUpdateError::RevisionMismatch)
            } else if str_eq(t.as_str(), "doc_length_exceeded") {
                Some(PaperDocUpdateError::DocLengthExceeded)
            } else if str_eq(t.as_str(), "image_size_exceeded") {
                Some(PaperDocUpdateError::ImageSizeExceeded)
            } else if str_eq(t.as_str(), "doc_archived") {
                Some(PaperDocUpdateError::DocArchived)
            } else if str_eq(t.as_str(), "doc_deleted") {
                Some(PaperDocUpdateError::DocDeleted)
            } else {
                None
            }
        },
        None => None,
    }
}

} // verus!
