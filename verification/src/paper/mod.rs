//! The Paper namespace: argument and result types of the document
//! endpoints, the functions that build their requests, and the decoders
//! that interpret their responses.
//!
//! Every endpoint is a pair of pure functions: one builds the request as a
//! plain value, one decodes the status, headers and body the caller read
//! back.  The caller performs the round trip in between.

use vstd::prelude::*;

pub mod errors;
pub mod users;

use crate::http::HasAccessToken;
use crate::json::{
    bool_field, e_bool_field, e_int_field, e_obj_get, e_opt_str_field, e_str_field, int_field,
    json_view, json_view_fields, json_view_seq, lemma_json_view_fields, lemma_json_view_seq,
    obj_get, opt_str_field, str_eq, str_field, tag_of, e_tag_of, Json, JsonV,
};

verus! {

broadcast use vstd::std_specs::vec::group_vec_axioms, vstd::seq::group_seq_axioms, vstd::string::group_string_axioms;

/// A client for the endpoints of the Paper namespace.
#[derive(Debug)]
pub struct Paper {
    pub access_token: String,
}

impl HasAccessToken for Paper {
    open spec fn spec_token(&self) -> Seq<char> {
        self.access_token@
    }

    fn access_token(&self) -> &str {
        self.access_token.as_str()
    }
}

impl Paper {
    pub fn new(access_token: &str) -> (r: Paper)
        ensures
            r.access_token@ == access_token@,
    {
        Paper { access_token: access_token.to_owned() }
    }
}

// ---------------------------------------------------------------------------
// Scalar pieces shared by several endpoints.
// ---------------------------------------------------------------------------

/// An opaque pagination token and its expiry timestamp.  The expiry is
/// informational only: nothing here checks it locally, the server does.
#[derive(Debug)]
pub struct Cursor {
    pub value: String,
    pub expiration: String,
}

pub struct CursorV {
    pub value: Seq<char>,
    pub expiration: Seq<char>,
}

impl DeepView for Cursor {
    type V = CursorV;

    open spec fn deep_view(&self) -> CursorV {
        CursorV { value: self.value@, expiration: self.expiration@ }
    }
}

impl Clone for Cursor {
    fn clone(&self) -> (r: Self)
        ensures
            r.deep_view() == self.deep_view(),
    {
        Cursor { value: self.value.clone(), expiration: self.expiration.clone() }
    }
}

/// Reads `{"value": ..., "expiration": ...}`.
pub open spec fn spec_cursor(j: JsonV) -> Option<CursorV> {
    match j {
        JsonV::Obj(fields) => match (str_field(fields, "value"@), str_field(
            fields,
            "expiration"@,
        )) {
            (Some(v), Some(e)) => Some(CursorV { value: v, expiration: e }),
            _ => None,
        },
        _ => None,
    }
}

pub fn cursor_from_json(j: &Json) -> (r: Option<Cursor>)
    ensures
        r.deep_view() == spec_cursor(j@),
{
    match j {
        Json::Obj(fields) => match (e_str_field(fields, "value"), e_str_field(
            fields,
            "expiration",
        )) {
            (Some(v), Some(e)) => Some(Cursor { value: v, expiration: e }),
            _ => None,
        },
        _ => None,
    }
}

/// A reference to one document, the argument of several endpoints.
#[derive(Debug)]
pub struct RefPaperDoc {
    pub doc_id: String,
}

pub struct RefPaperDocV {
    pub doc_id: Seq<char>,
}

impl DeepView for RefPaperDoc {
    type V = RefPaperDocV;

    open spec fn deep_view(&self) -> RefPaperDocV {
        RefPaperDocV { doc_id: self.doc_id@ }
    }
}

pub open spec fn spec_ref_paper_doc_json(a: RefPaperDocV) -> JsonV {
    JsonV::Obj(seq![("doc_id"@, JsonV::Str(a.doc_id))])
}

pub fn ref_paper_doc_json(a: &RefPaperDoc) -> (r: Json)
    ensures
        r@ == spec_ref_paper_doc_json(a.deep_view()),
{
    let mut fields: Vec<(String, Json)> = Vec::new();
    fields.push(("doc_id".to_owned(), Json::Str(a.doc_id.clone())));
    proof {
        lemma_json_view_fields(fields@);
        assert(json_view_fields(fields@) =~= seq![("doc_id"@, JsonV::Str(a.doc_id@))]);
    }
    Json::Obj(fields)
}

pub open spec fn spec_ref_paper_doc_from_json(j: JsonV) -> Option<RefPaperDocV> {
    match j {
        JsonV::Obj(fields) => match str_field(fields, "doc_id"@) {
            Some(d) => Some(RefPaperDocV { doc_id: d }),
            None => None,
        },
        _ => None,
    }
}

pub fn ref_paper_doc_from_json(j: &Json) -> (r: Option<RefPaperDoc>)
    ensures
        r.deep_view() == spec_ref_paper_doc_from_json(j@),
{
    match j {
        Json::Obj(fields) => match e_str_field(fields, "doc_id") {
            Some(d) => Some(RefPaperDoc { doc_id: d }),
            None => None,
        },
        _ => None,
    }
}

// ---------------------------------------------------------------------------
// The wire names of the closed unions used in arguments.  As the remote
// API takes them, a union argument is written as its plain tag string.
// ---------------------------------------------------------------------------

#[derive(PartialEq, Eq, Debug, Clone, Copy, Structural)]
pub enum ImportFormat {
    Html,
    Markdown,
    PlainText,
}

impl DeepView for ImportFormat {
    type V = ImportFormat;

    open spec fn deep_view(&self) -> ImportFormat {
        *self
    }
}

pub open spec fn spec_import_format_str(f: ImportFormat) -> Seq<char> {
    match f {
        ImportFormat::Html => "html"@,
        ImportFormat::Markdown => "markdown"@,
        ImportFormat::PlainText => "plain_text"@,
    }
}

pub fn import_format_str(f: &ImportFormat) -> (r: &'static str)
    ensures
        r@ == spec_import_format_str(*f),
{
    match f {
        ImportFormat::Html => "html",
        ImportFormat::Markdown => "markdown",
        ImportFormat::PlainText => "plain_text",
    }
}

pub open spec fn spec_import_format_of(s: Seq<char>) -> Option<ImportFormat> {
    if s == "html"@ {
        Some(ImportFormat::Html)
    } else if s == "markdown"@ {
        Some(ImportFormat::Markdown)
    } else if s == "plain_text"@ {
        Some(ImportFormat::PlainText)
    } else {
        None
    }
}

pub fn import_format_of(s: &str) -> (r: Option<ImportFormat>)
    ensures
        r == spec_import_format_of(s@),
{
    if str_eq(s, "html") {
        Some(ImportFormat::Html)
    } else if str_eq(s, "markdown") {
        Some(ImportFormat::Markdown)
    } else if str_eq(s, "plain_text") {
        Some(ImportFormat::PlainText)
    } else {
        None
    }
}

#[derive(PartialEq, Eq, Debug, Copy, Clone, Structural)]
pub enum ExportFormat {
    Html,
    Markdown,
}

impl DeepView for ExportFormat {
    type V = ExportFormat;

    open spec fn deep_view(&self) -> ExportFormat {
        *self
    }
}

pub open spec fn spec_export_format_str(f: ExportFormat) -> Seq<char> {
    match f {
        ExportFormat::Html => "html"@,
        ExportFormat::Markdown => "markdown"@,
    }
}

pub fn export_format_str(f: &ExportFormat) -> (r: &'static str)
    ensures
        r@ == spec_export_format_str(*f),
{
    match f {
        ExportFormat::Html => "html",
        ExportFormat::Markdown => "markdown",
    }
}

pub open spec fn spec_export_format_of(s: Seq<char>) -> Option<ExportFormat> {
    if s == "html"@ {
        Some(ExportFormat::Html)
    } else if s == "markdown"@ {
        Some(ExportFormat::Markdown)
    } else {
        None
    }
}

pub fn export_format_of(s: &str) -> (r: Option<ExportFormat>)
    ensures
        r == spec_export_format_of(s@),
{
    if str_eq(s, "html") {
        Some(ExportFormat::Html)
    } else if str_eq(s, "markdown") {
        Some(ExportFormat::Markdown)
    } else {
        None
    }
}

#[derive(PartialEq, Eq, Debug, Copy, Clone, Structural)]
pub enum ListPaperDocsFilterBy {
    DocsAccessed,
    DocsCreated,
}

impl DeepView for ListPaperDocsFilterBy {
    type V = ListPaperDocsFilterBy;

    open spec fn deep_view(&self) -> ListPaperDocsFilterBy {
        *self
    }
}

pub open spec fn spec_filter_by_str(f: ListPaperDocsFilterBy) -> Seq<char> {
    match f {
        ListPaperDocsFilterBy::DocsAccessed => "docs_accessed"@,
        ListPaperDocsFilterBy::DocsCreated => "docs_created"@,
    }
}

pub fn filter_by_str(f: &ListPaperDocsFilterBy) -> (r: &'static str)
    ensures
        r@ == spec_filter_by_str(*f),
{
    match f {
        ListPaperDocsFilterBy::DocsAccessed => "docs_accessed",
        ListPaperDocsFilterBy::DocsCreated => "docs_created",
    }
}

#[derive(PartialEq, Eq, Debug, Copy, Clone, Structural)]
pub enum ListPaperDocsSortBy {
    Accessed,
    Modified,
    Created,
}

impl DeepView for ListPaperDocsSortBy {
    type V = ListPaperDocsSortBy;

    open spec fn deep_view(&self) -> ListPaperDocsSortBy {
        *self
    }
}

pub open spec fn spec_sort_by_str(f: ListPaperDocsSortBy) -> Seq<char> {
    match f {
        ListPaperDocsSortBy::Accessed => "accessed"@,
        ListPaperDocsSortBy::Modified => "modified"@,
        ListPaperDocsSortBy::Created => "created"@,
    }
}

pub fn sort_by_str(f: &ListPaperDocsSortBy) -> (r: &'static str)
    ensures
        r@ == spec_sort_by_str(*f),
{
    match f {
        ListPaperDocsSortBy::Accessed => "accessed",
        ListPaperDocsSortBy::Modified => "modified",
        ListPaperDocsSortBy::Created => "created",
    }
}

#[derive(PartialEq, Eq, Debug, Copy, Clone, Structural)]
pub enum ListPaperDocsSortOrder {
    Ascending,
    Descending,
}

impl DeepView for ListPaperDocsSortOrder {
    type V = ListPaperDocsSortOrder;

    open spec fn deep_view(&self) -> ListPaperDocsSortOrder {
        *self
    }
}

pub open spec fn spec_sort_order_str(f: ListPaperDocsSortOrder) -> Seq<char> {
    match f {
        ListPaperDocsSortOrder::Ascending => "ascending"@,
        ListPaperDocsSortOrder::Descending => "descending"@,
    }
}

pub fn sort_order_str(f: &ListPaperDocsSortOrder) -> (r: &'static str)
    ensures
        r@ == spec_sort_order_str(*f),
{
    match f {
        ListPaperDocsSortOrder::Ascending => "ascending",
        ListPaperDocsSortOrder::Descending => "descending",
    }
}

#[derive(PartialEq, Eq, Debug, Copy, Clone, Structural)]
pub enum PaperDocUpdatePolicy {
    Append,
    Prepend,
    OverwriteAll,
}

impl DeepView for PaperDocUpdatePolicy {
    type V = PaperDocUpdatePolicy;

    open spec fn deep_view(&self) -> PaperDocUpdatePolicy {
        *self
    }
}

pub open spec fn spec_update_policy_str(f: PaperDocUpdatePolicy) -> Seq<char> {
    match f {
        PaperDocUpdatePolicy::Append => "append"@,
        PaperDocUpdatePolicy::Prepend => "prepend"@,
        PaperDocUpdatePolicy::OverwriteAll => "overwrite_all"@,
    }
}

pub fn update_policy_str(f: &PaperDocUpdatePolicy) -> (r: &'static str)
    ensures
        r@ == spec_update_policy_str(*f),
{
    match f {
        PaperDocUpdatePolicy::Append => "append",
        PaperDocUpdatePolicy::Prepend => "prepend",
        PaperDocUpdatePolicy::OverwriteAll => "overwrite_all",
    }
}

pub open spec fn spec_update_policy_of(s: Seq<char>) -> Option<PaperDocUpdatePolicy> {
    if s == "append"@ {
        Some(PaperDocUpdatePolicy::Append)
    } else if s == "prepend"@ {
        Some(PaperDocUpdatePolicy::Prepend)
    } else if s == "overwrite_all"@ {
        Some(PaperDocUpdatePolicy::OverwriteAll)
    } else {
        None
    }
}

pub fn update_policy_of(s: &str) -> (r: Option<PaperDocUpdatePolicy>)
    ensures
        r == spec_update_policy_of(s@),
{
    if str_eq(s, "append") {
        Some(PaperDocUpdatePolicy::Append)
    } else if str_eq(s, "prepend") {
        Some(PaperDocUpdatePolicy::Prepend)
    } else if str_eq(s, "overwrite_all") {
        Some(PaperDocUpdatePolicy::OverwriteAll)
    } else {
        None
    }
}

} // verus!

verus! {

// ---------------------------------------------------------------------------
// Creating and updating documents.
// ---------------------------------------------------------------------------

#[derive(Debug)]
pub struct PaperDocCreateArgs {
    pub import_format: ImportFormat,
    pub parent_folder_id: Option<String>,
}

pub struct PaperDocCreateArgsV {
    pub import_format: ImportFormat,
    pub parent_folder_id: Option<Seq<char>>,
}

impl DeepView for PaperDocCreateArgs {
    type V = PaperDocCreateArgsV;

    open spec fn deep_view(&self) -> PaperDocCreateArgsV {
        PaperDocCreateArgsV {
            import_format: self.import_format,
            parent_folder_id: self.parent_folder_id.deep_view(),
        }
    }
}

/// The argument object on the wire; an absent parent folder is omitted.
pub open spec fn spec_paper_doc_create_args_json(a: PaperDocCreateArgsV) -> JsonV {
    JsonV::Obj(
        seq![("import_format"@, JsonV::Str(spec_import_format_str(a.import_format)))] + (
        match a.parent_folder_id {
            Some(p) => seq![("parent_folder_id"@, JsonV::Str(p))],
            None => Seq::empty(),
        }),
    )
}

pub fn paper_doc_create_args_json(a: &PaperDocCreateArgs) -> (r: Json)
    ensures
        r@ == spec_paper_doc_create_args_json(a.deep_view()),
{
    let mut fields: Vec<(String, Json)> = Vec::new();
    fields.push(("import_format".to_owned(), Json::Str(import_format_str(&a.import_format).to_owned())));
    match &a.parent_folder_id {
        Some(p) => {
            fields.push(("parent_folder_id".to_owned(), Json::Str(p.clone())));
            proof {
                lemma_json_view_fields(fields@);
                assert(json_view_fields(fields@) =~= seq![
                    ("import_format"@, JsonV::Str(spec_import_format_str(a.import_format))),
                    ("parent_folder_id"@, JsonV::Str(a.parent_folder_id.deep_view().unwrap())),
                ]);
                assert(json_view_fields(fields@) =~= spec_paper_doc_create_args_json(
                    a.deep_view(),
                )->Obj_0);
            }
        },
        None => {
            proof {
                lemma_json_view_fields(fields@);
                assert(json_view_fields(fields@) =~= seq![
                    ("import_format"@, JsonV::Str(spec_import_format_str(a.import_format))),
                ]);
                assert(json_view_fields(fields@) =~= spec_paper_doc_create_args_json(
                    a.deep_view(),
                )->Obj_0);
            }
        },
    }
    Json::Obj(fields)
}

/// Reads the argument object back, as the round-trip law needs.
pub open spec fn spec_paper_doc_create_args_from_json(j: JsonV) -> Option<PaperDocCreateArgsV> {
    match j {
        JsonV::Obj(fields) => match (str_field(fields, "import_format"@), opt_str_field(
            fields,
            "parent_folder_id"@,
        )) {
            (Some(f), Some(p)) => match spec_import_format_of(f) {
                Some(imp) => Some(PaperDocCreateArgsV { import_format: imp, parent_folder_id: p }),
                None => None,
            },
            _ => None,
        },
        _ => None,
    }
}

pub fn paper_doc_create_args_from_json(j: &Json) -> (r: Option<PaperDocCreateArgs>)
    ensures
        r.deep_view() == spec_paper_doc_create_args_from_json(j@),
{
    match j {
        Json::Obj(fields) => match (e_str_field(fields, "import_format"), e_opt_str_field(
            fields,
            "parent_folder_id",
        )) {
            (Some(f), Some(p)) => match import_format_of(f.as_str()) {
                Some(imp) => Some(PaperDocCreateArgs { import_format: imp, parent_folder_id: p }),
                None => None,
            },
            _ => None,
        },
        _ => None,
    }
}

#[derive(Debug)]
pub struct PaperDocCreateUpdateResult {
    pub doc_id: String,
    pub revision: i64,
    pub title: String,
}

pub struct PaperDocCreateUpdateResultV {
    pub doc_id: Seq<char>,
    pub revision: int,
    pub title: Seq<char>,
}

impl DeepView for PaperDocCreateUpdateResult {
    type V = PaperDocCreateUpdateResultV;

    open spec fn deep_view(&self) -> PaperDocCreateUpdateResultV {
        PaperDocCreateUpdateResultV {
            doc_id: self.doc_id@,
            revision: self.revision as int,
            title: self.title@,
        }
    }
}

pub open spec fn spec_create_update_result(j: JsonV) -> Option<PaperDocCreateUpdateResultV> {
    match j {
        JsonV::Obj(fields) => match (
            str_field(fields, "doc_id"@),
            int_field(fields, "revision"@),
            str_field(fields, "title"@),
        ) {
            (Some(d), Some(rv), Some(t)) => {
                if -0x8000_0000_0000_0000 <= rv && rv <= 0x7fff_ffff_ffff_ffff {
                    Some(PaperDocCreateUpdateResultV { doc_id: d, revision: rv, title: t })
                } else {
                    None
                }
            },
            _ => None,
        },
        _ => None,
    }
}

pub fn create_update_result_from_json(j: &Json) -> (r: Option<PaperDocCreateUpdateResult>)
    ensures
        r.deep_view() == spec_create_update_result(j@),
{
    match j {
        Json::Obj(fields) => match (
            e_str_field(fields, "doc_id"),
            e_int_field(fields, "revision"),
            e_str_field(fields, "title"),
        ) {
            (Some(d), Some(rv), Some(t)) => Some(
                PaperDocCreateUpdateResult { doc_id: d, revision: rv, title: t },
            ),
            _ => None,
        },
        _ => None,
    }
}

#[derive(Debug)]
pub struct PaperDocExport {
    pub doc_id: String,
    pub export_format: ExportFormat,
}

pub struct PaperDocExportV {
    pub doc_id: Seq<char>,
    pub export_format: ExportFormat,
}

impl DeepView for PaperDocExport {
    type V = PaperDocExportV;

    open spec fn deep_view(&self) -> PaperDocExportV {
        PaperDocExportV { doc_id: self.doc_id@, export_format: self.export_format }
    }
}

pub open spec fn spec_paper_doc_export_json(a: PaperDocExportV) -> JsonV {
    JsonV::Obj(
        seq![
            ("doc_id"@, JsonV::Str(a.doc_id)),
            ("export_format"@, JsonV::Str(spec_export_format_str(a.export_format))),
        ],
    )
}

pub fn paper_doc_export_json(a: &PaperDocExport) -> (r: Json)
    ensures
        r@ == spec_paper_doc_export_json(a.deep_view()),
{
    let mut fields: Vec<(String, Json)> = Vec::new();
    fields.push(("doc_id".to_owned(), Json::Str(a.doc_id.clone())));
    fields.push(("export_format".to_owned(), Json::Str(export_format_str(&a.export_format).to_owned())));
    proof {
        lemma_json_view_fields(fields@);
        assert(json_view_fields(fields@) =~= spec_paper_doc_export_json(a.deep_view())->Obj_0);
    }
    Json::Obj(fields)
}

pub open spec fn spec_paper_doc_export_from_json(j: JsonV) -> Option<PaperDocExportV> {
    match j {
        JsonV::Obj(fields) => match (str_field(fields, "doc_id"@), str_field(
            fields,
            "export_format"@,
        )) {
            (Some(d), Some(f)) => match spec_export_format_of(f) {
                Some(ef) => Some(PaperDocExportV { doc_id: d, export_format: ef }),
                None => None,
            },
            _ => None,
        },
        _ => None,
    }
}

pub fn paper_doc_export_from_json(j: &Json) -> (r: Option<PaperDocExport>)
    ensures
        r.deep_view() == spec_paper_doc_export_from_json(j@),
{
    match j {
        Json::Obj(fields) => match (e_str_field(fields, "doc_id"), e_str_field(
            fields,
            "export_format",
        )) {
            (Some(d), Some(f)) => match export_format_of(f.as_str()) {
                Some(ef) => Some(PaperDocExport { doc_id: d, export_format: ef }),
                None => None,
            },
            _ => None,
        },
        _ => None,
    }
}

#[derive(Debug)]
pub struct PaperDocExportResult {
    pub owner: String,
    pub title: String,
    pub revision: i64,
    pub mime_type: String,
}

pub struct PaperDocExportResultV {
    pub owner: Seq<char>,
    pub title: Seq<char>,
    pub revision: int,
    pub mime_type: Seq<char>,
}

impl DeepView for PaperDocExportResult {
    type V = PaperDocExportResultV;

    open spec fn deep_view(&self) -> PaperDocExportResultV {
        PaperDocExportResultV {
            owner: self.owner@,
            title: self.title@,
            revision: self.revision as int,
            mime_type: self.mime_type@,
        }
    }
}

pub open spec fn spec_export_result(j: JsonV) -> Option<PaperDocExportResultV> {
    match j {
        JsonV::Obj(fields) => match (
            str_field(fields, "owner"@),
            str_field(fields, "title"@),
            int_field(fields, "revision"@),
            str_field(fields, "mime_type"@),
        ) {
            (Some(o), Some(t), Some(rv), Some(m)) => {
                if -0x8000_0000_0000_0000 <= rv && rv <= 0x7fff_ffff_ffff_ffff {
                    Some(
                        PaperDocExportResultV { owner: o, title: t, revision: rv, mime_type: m },
                    )
                } else {
                    None
                }
            },
            _ => None,
        },
        _ => None,
    }
}

pub fn export_result_from_json(j: &Json) -> (r: Option<PaperDocExportResult>)
    ensures
        r.deep_view() == spec_export_result(j@),
{
    match j {
        Json::Obj(fields) => match (
            e_str_field(fields, "owner"),
            e_str_field(fields, "title"),
            e_int_field(fields, "revision"),
            e_str_field(fields, "mime_type"),
        ) {
            (Some(o), Some(t), Some(rv), Some(m)) => Some(
                PaperDocExportResult { owner: o, title: t, revision: rv, mime_type: m },
            ),
            _ => None,
        },
        _ => None,
    }
}

#[derive(Debug)]
pub struct PaperDocUpdateArgs {
    pub doc_id: String,
    pub doc_update_policy: PaperDocUpdatePolicy,
    pub revision: i64,
    pub import_format: ImportFormat,
}

pub struct PaperDocUpdateArgsV {
    pub doc_id: Seq<char>,
    pub doc_update_policy: PaperDocUpdatePolicy,
    pub revision: int,
    pub import_format: ImportFormat,
}

impl DeepView for PaperDocUpdateArgs {
    type V = PaperDocUpdateArgsV;

    open spec fn deep_view(&self) -> PaperDocUpdateArgsV {
        PaperDocUpdateArgsV {
            doc_id: self.doc_id@,
            doc_update_policy: self.doc_update_policy,
            revision: self.revision as int,
            import_format: self.import_format,
        }
    }
}

pub open spec fn spec_paper_doc_update_args_json(a: PaperDocUpdateArgsV) -> JsonV {
    JsonV::Obj(
        seq![
            ("doc_id"@, JsonV::Str(a.doc_id)),
            ("doc_update_policy"@, JsonV::Str(spec_update_policy_str(a.doc_update_policy))),
            ("revision"@, JsonV::Int(a.revision)),
            ("import_format"@, JsonV::Str(spec_import_format_str(a.import_format))),
        ],
    )
}

pub fn paper_doc_update_args_json(a: &PaperDocUpdateArgs) -> (r: Json)
    ensures
        r@ == spec_paper_doc_update_args_json(a.deep_view()),
{
    let mut fields: Vec<(String, Json)> = Vec::new();
    fields.push(("doc_id".to_owned(), Json::Str(a.doc_id.clone())));
    fields.push(("doc_update_policy".to_owned(), Json::Str(update_policy_str(&a.doc_update_policy).to_owned())));
    fields.push(("revision".to_owned(), Json::Int(a.revision)));
    fields.push(("import_format".to_owned(), Json::Str(import_format_str(&a.import_format).to_owned())));
    proof {
        lemma_json_view_fields(fields@);
        assert(json_view_fields(fields@) =~= spec_paper_doc_update_args_json(a.deep_view())->Obj_0);
    }
    Json::Obj(fields)
}

pub open spec fn spec_paper_doc_update_args_from_json(j: JsonV) -> Option<PaperDocUpdateArgsV> {
    match j {
        JsonV::Obj(fields) => match (
            str_field(fields, "doc_id"@),
            str_field(fields, "doc_update_policy"@),
            int_field(fields, "revision"@),
            str_field(fields, "import_format"@),
        ) {
            (Some(d), Some(p), Some(rv), Some(f)) => match (
                spec_update_policy_of(p),
                spec_import_format_of(f),
            ) {
                (Some(pol), Some(imp)) => {
                    if -0x8000_0000_0000_0000 <= rv && rv <= 0x7fff_ffff_ffff_ffff {
                        Some(
                            PaperDocUpdateArgsV {
                                doc_id: d,
                                doc_update_policy: pol,
                                revision: rv,
                                import_format: imp,
                            },
                        )
                    } else {
                        None
                    }
                },
                _ => None,
            },
            _ => None,
        },
        _ => None,
    }
}

pub fn paper_doc_update_args_from_json(j: &Json) -> (r: Option<PaperDocUpdateArgs>)
    ensures
        r.deep_view() == spec_paper_doc_update_args_from_json(j@),
{
    match j {
        Json::Obj(fields) => match (
            e_str_field(fields, "doc_id"),
            e_str_field(fields, "doc_update_policy"),
            e_int_field(fields, "revision"),
            e_str_field(fields, "import_format"),
        ) {
            (Some(d), Some(p), Some(rv), Some(f)) => match (
                update_policy_of(p.as_str()),
                import_format_of(f.as_str()),
            ) {
                (Some(pol), Some(imp)) => Some(
                    PaperDocUpdateArgs {
                        doc_id: d,
                        doc_update_policy: pol,
                        revision: rv,
                        import_format: imp,
                    },
                ),
                _ => None,
            },
            _ => None,
        },
        _ => None,
    }
}

} // verus!

verus! {

// ---------------------------------------------------------------------------
// Listing the users on a folder.
// ---------------------------------------------------------------------------

#[derive(Debug)]
pub struct ListUsersOnFolderArgs {
    pub doc_id: String,
    pub limit: i32,
}

pub struct ListUsersOnFolderArgsV {
    pub doc_id: Seq<char>,
    pub limit: int,
}

impl DeepView for ListUsersOnFolderArgs {
    type V = ListUsersOnFolderArgsV;

    open spec fn deep_view(&self) -> ListUsersOnFolderArgsV {
        ListUsersOnFolderArgsV { doc_id: self.doc_id@, limit: self.limit as int }
    }
}

pub open spec fn spec_list_users_on_folder_args_json(a: ListUsersOnFolderArgsV) -> JsonV {
    JsonV::Obj(seq![("doc_id"@, JsonV::Str(a.doc_id)), ("limit"@, JsonV::Int(a.limit))])
}

pub fn list_users_on_folder_args_json(a: &ListUsersOnFolderArgs) -> (r: Json)
    ensures
        r@ == spec_list_users_on_folder_args_json(a.deep_view()),
{
    let mut fields: Vec<(String, Json)> = Vec::new();
    fields.push(("doc_id".to_owned(), Json::Str(a.doc_id.clone())));
    fields.push(("limit".to_owned(), Json::Int(a.limit as i64)));
    proof {
        lemma_json_view_fields(fields@);
        assert(json_view_fields(fields@) =~= spec_list_users_on_folder_args_json(
            a.deep_view(),
        )->Obj_0);
    }
    Json::Obj(fields)
}

pub open spec fn spec_list_users_on_folder_args_from_json(j: JsonV) -> Option<
    ListUsersOnFolderArgsV,
> {
    match j {
        JsonV::Obj(fields) => match (str_field(fields, "doc_id"@), int_field(fields, "limit"@)) {
            (Some(d), Some(l)) => {
                if -0x8000_0000 <= l && l <= 0x7fff_ffff {
                    Some(ListUsersOnFolderArgsV { doc_id: d, limit: l })
                } else {
                    None
                }
            },
            _ => None,
        },
        _ => None,
    }
}

pub fn list_users_on_folder_args_from_json(j: &Json) -> (r: Option<ListUsersOnFolderArgs>)
    ensures
        r.deep_view() == spec_list_users_on_folder_args_from_json(j@),
{
    match j {
        Json::Obj(fields) => match (e_str_field(fields, "doc_id"), e_int_field(fields, "limit")) {
            (Some(d), Some(l)) => {
                if -0x8000_0000 <= l && l <= 0x7fff_ffff {
                    Some(ListUsersOnFolderArgs { doc_id: d, limit: l as i32 })
                } else {
                    None
                }
            },
            _ => None,
        },
        _ => None,
    }
}

#[derive(Debug)]
pub struct ListUsersOnFolderContinueArgs {
    pub doc_id: String,
    pub cursor: String,
}

pub struct ListUsersOnFolderContinueArgsV {
    pub doc_id: Seq<char>,
    pub cursor: Seq<char>,
}

impl DeepView for ListUsersOnFolderContinueArgs {
    type V = ListUsersOnFolderContinueArgsV;

    open spec fn deep_view(&self) -> ListUsersOnFolderContinueArgsV {
        ListUsersOnFolderContinueArgsV { doc_id: self.doc_id@, cursor: self.cursor@ }
    }
}

pub open spec fn spec_list_users_on_folder_continue_args_json(
    a: ListUsersOnFolderContinueArgsV,
) -> JsonV {
    JsonV::Obj(seq![("doc_id"@, JsonV::Str(a.doc_id)), ("cursor"@, JsonV::Str(a.cursor))])
}

pub fn list_users_on_folder_continue_args_json(a: &ListUsersOnFolderContinueArgs) -> (r: Json)
    ensures
        r@ == spec_list_users_on_folder_continue_args_json(a.deep_view()),
{
    let mut fields: Vec<(String, Json)> = Vec::new();
    fields.push(("doc_id".to_owned(), Json::Str(a.doc_id.clone())));
    fields.push(("cursor".to_owned(), Json::Str(a.cursor.clone())));
    proof {
        lemma_json_view_fields(fields@);
        assert(json_view_fields(fields@) =~= spec_list_users_on_folder_continue_args_json(
            a.deep_view(),
        )->Obj_0);
    }
    Json::Obj(fields)
}

pub open spec fn spec_list_users_on_folder_continue_args_from_json(j: JsonV) -> Option<
    ListUsersOnFolderContinueArgsV,
> {
    match j {
        JsonV::Obj(fields) => match (str_field(fields, "doc_id"@), str_field(fields, "cursor"@)) {
            (Some(d), Some(c)) => Some(ListUsersOnFolderContinueArgsV { doc_id: d, cursor: c }),
            _ => None,
        },
        _ => None,
    }
}

pub fn list_users_on_folder_continue_args_from_json(j: &Json) -> (r: Option<
    ListUsersOnFolderContinueArgs,
>)
    ensures
        r.deep_view() == spec_list_users_on_folder_continue_args_from_json(j@),
{
    match j {
        Json::Obj(fields) => match (e_str_field(fields, "doc_id"), e_str_field(
            fields,
            "cursor",
        )) {
            (Some(d), Some(c)) => Some(ListUsersOnFolderContinueArgs { doc_id: d, cursor: c }),
            _ => None,
        },
        _ => None,
    }
}

/// Someone invited by email who has not joined yet.
#[derive(Debug)]
pub struct InviteeInfo {
    pub email: String,
}

pub struct InviteeInfoV {
    pub email: Seq<char>,
}

impl DeepView for InviteeInfo {
    type V = InviteeInfoV;

    open spec fn deep_view(&self) -> InviteeInfoV {
        InviteeInfoV { email: self.email@ }
    }
}

pub open spec fn spec_invitee_info(j: JsonV) -> Option<InviteeInfoV> {
    match j {
        JsonV::Obj(fields) => match str_field(fields, "email"@) {
            Some(e) => Some(InviteeInfoV { email: e }),
            None => None,
        },
        _ => None,
    }
}

pub fn invitee_info_from_json(j: &Json) -> (r: Option<InviteeInfo>)
    ensures
        r.deep_view() == spec_invitee_info(j@),
{
    match j {
        Json::Obj(fields) => match e_str_field(fields, "email") {
            Some(e) => Some(InviteeInfo { email: e }),
            None => None,
        },
        _ => None,
    }
}

/// An account that has access.
#[derive(Debug)]
pub struct UserInfo {
    pub account_id: String,
    pub same_team: bool,
    pub team_member_id: Option<String>,
}

pub struct UserInfoV {
    pub account_id: Seq<char>,
    pub same_team: bool,
    pub team_member_id: Option<Seq<char>>,
}

impl DeepView for UserInfo {
    type V = UserInfoV;

    open spec fn deep_view(&self) -> UserInfoV {
        UserInfoV {
            account_id: self.account_id@,
            same_team: self.same_team,
            team_member_id: self.team_member_id.deep_view(),
        }
    }
}

pub open spec fn spec_user_info(j: JsonV) -> Option<UserInfoV> {
    match j {
        JsonV::Obj(fields) => match (
            str_field(fields, "account_id"@),
            bool_field(fields, "same_team"@),
            opt_str_field(fields, "team_member_id"@),
        ) {
            (Some(a), Some(s), Some(t)) => Some(
                UserInfoV { account_id: a, same_team: s, team_member_id: t },
            ),
            _ => None,
        },
        _ => None,
    }
}

pub fn user_info_from_json(j: &Json) -> (r: Option<UserInfo>)
    ensures
        r.deep_view() == spec_user_info(j@),
{
    match j {
        Json::Obj(fields) => match (
            e_str_field(fields, "account_id"),
            e_bool_field(fields, "same_team"),
            e_opt_str_field(fields, "team_member_id"),
        ) {
            (Some(a), Some(s), Some(t)) => Some(
                UserInfo { account_id: a, same_team: s, team_member_id: t },
            ),
            _ => None,
        },
        _ => None,
    }
}

/// Every element of an array read as an invitee, or nothing.
pub open spec fn spec_invitee_list(elems: Seq<JsonV>) -> Option<Seq<InviteeInfoV>>
    decreases elems.len(),
{
    if elems.len() == 0 {
        Some(Seq::empty())
    } else {
        match spec_invitee_info(elems[0]) {
            Some(x) => match spec_invitee_list(elems.subrange(1, elems.len() as int)) {
                Some(rest) => Some(seq![x] + rest),
                None => None,
            },
            None => None,
        }
    }
}

fn invitee_list_from(v: &Vec<Json>, i: usize) -> (r: Option<Vec<InviteeInfo>>)
    requires
        i <= v@.len(),
    ensures
        r.deep_view() == spec_invitee_list(
            json_view_seq(v@).subrange(i as int, v@.len() as int),
        ),
    decreases v@.len() - i,
{
    proof {
        lemma_json_view_seq(v@);
    }
    let n = v.len();
    let ghost tail = json_view_seq(v@).subrange(i as int, v@.len() as int);
    if i >= n {
        let out: Vec<InviteeInfo> = Vec::new();
        proof {
            assert(tail =~= Seq::<JsonV>::empty());
            assert(out.deep_view() =~= Seq::<InviteeInfoV>::empty());
        }
        return Some(out);
    }
    proof {
        assert(tail[0] == json_view(v@[i as int]));
        assert(tail.subrange(1, tail.len() as int) =~= json_view_seq(v@).subrange(
            i as int + 1,
            v@.len() as int,
        ));
    }
    match invitee_info_from_json(&v[i]) {
        None => None,
        Some(x) => match invitee_list_from(v, i + 1) {
            None => None,
            Some(rest) => {
                let ghost gx = x;
                let ghost grest = rest.deep_view();
                let mut out = rest;
                out.insert(0, x);
                proof {
                    assert(out.deep_view() =~= seq![gx.deep_view()] + grest);
                }
                Some(out)
            },
        },
    }
}

pub fn invitee_list_from_json(j: &Json) -> (r: Option<Vec<InviteeInfo>>)
    ensures
        match j@ {
            JsonV::Arr(elems) => r.deep_view() == spec_invitee_list(elems),
            _ => r is None,
        },
{
    match j {
        Json::Arr(elems) => {
            proof {
                lemma_json_view_seq(elems@);
                assert(json_view_seq(elems@).subrange(0, elems@.len() as int) =~= json_view_seq(
                    elems@,
                ));
            }
            invitee_list_from(elems, 0)
        },
        _ => None,
    }
}

/// Every element of an array read as a user, or nothing.
pub open spec fn spec_user_list(elems: Seq<JsonV>) -> Option<Seq<UserInfoV>>
    decreases elems.len(),
{
    if elems.len() == 0 {
        Some(Seq::empty())
    } else {
        match spec_user_info(elems[0]) {
            Some(x) => match spec_user_list(elems.subrange(1, elems.len() as int)) {
                Some(rest) => Some(seq![x] + rest),
                None => None,
            },
            None => None,
        }
    }
}

fn user_list_from(v: &Vec<Json>, i: usize) -> (r: Option<Vec<UserInfo>>)
    requires
        i <= v@.len(),
    ensures
        r.deep_view() == spec_user_list(json_view_seq(v@).subrange(i as int, v@.len() as int)),
    decreases v@.len() - i,
{
    proof {
        lemma_json_view_seq(v@);
    }
    let n = v.len();
    let ghost tail = json_view_seq(v@).subrange(i as int, v@.len() as int);
    if i >= n {
        let out: Vec<UserInfo> = Vec::new();
        proof {
            assert(tail =~= Seq::<JsonV>::empty());
            assert(out.deep_view() =~= Seq::<UserInfoV>::empty());
        }
        return Some(out);
    }
    proof {
        assert(tail[0] == json_view(v@[i as int]));
        assert(tail.subrange(1, tail.len() as int) =~= json_view_seq(v@).subrange(
            i as int + 1,
            v@.len() as int,
        ));
    }
    match user_info_from_json(&v[i]) {
        None => None,
        Some(x) => match user_list_from(v, i + 1) {
            None => None,
            Some(rest) => {
                let ghost gx = x;
                let ghost grest = rest.deep_view();
                let mut out = rest;
                out.insert(0, x);
                proof {
                    assert(out.deep_view() =~= seq![gx.deep_view()] + grest);
                }
                Some(out)
            },
        },
    }
}

pub fn user_list_from_json(j: &Json) -> (r: Option<Vec<UserInfo>>)
    ensures
        match j@ {
            JsonV::Arr(elems) => r.deep_view() == spec_user_list(elems),
            _ => r is None,
        },
{
    match j {
        Json::Arr(elems) => {
            proof {
                lemma_json_view_seq(elems@);
                assert(json_view_seq(elems@).subrange(0, elems@.len() as int) =~= json_view_seq(
                    elems@,
                ));
            }
            user_list_from(elems, 0)
        },
        _ => None,
    }
}

/// What `folder_users/list` and its continuation return.
#[derive(Debug)]
pub struct ListUsersOnFolderResponse {
    pub invitees: Vec<InviteeInfo>,
    pub users: Vec<UserInfo>,
    pub cursor: Cursor,
    pub has_more: bool,
}

pub struct ListUsersOnFolderResponseV {
    pub invitees: Seq<InviteeInfoV>,
    pub users: Seq<UserInfoV>,
    pub cursor: CursorV,
    pub has_more: bool,
}

impl DeepView for ListUsersOnFolderResponse {
    type V = ListUsersOnFolderResponseV;

    open spec fn deep_view(&self) -> ListUsersOnFolderResponseV {
        ListUsersOnFolderResponseV {
            invitees: self.invitees.deep_view(),
            users: self.users.deep_view(),
            cursor: self.cursor.deep_view(),
            has_more: self.has_more,
        }
    }
}

pub open spec fn spec_list_users_on_folder_response(j: JsonV) -> Option<
    ListUsersOnFolderResponseV,
> {
    match j {
        JsonV::Obj(fields) => {
            let inv = match obj_get(fields, "invitees"@) {
                Some(JsonV::Arr(elems)) => spec_invitee_list(elems),
                _ => None,
            };
            let usr = match obj_get(fields, "users"@) {
                Some(JsonV::Arr(elems)) => spec_user_list(elems),
                _ => None,
            };
            let cur = match obj_get(fields, "cursor"@) {
                Some(c) => spec_cursor(c),
                None => None,
            };
            match (inv, usr, cur, bool_field(fields, "has_more"@)) {
                (Some(invitees), Some(users), Some(cursor), Some(has_more)) => Some(
                    ListUsersOnFolderResponseV { invitees, users, cursor, has_more },
                ),
                _ => None,
            }
        },
        _ => None,
    }
}

pub fn list_users_on_folder_response_from_json(j: &Json) -> (r: Option<ListUsersOnFolderResponse>)
    ensures
        r.deep_view() == spec_list_users_on_folder_response(j@),
{
    match j {
        Json::Obj(fields) => {
            let inv = match e_obj_get(fields, "invitees") {
                Some(a) => invitee_list_from_json(a),
                None => None,
            };
            let usr = match e_obj_get(fields, "users") {
                Some(a) => user_list_from_json(a),
                None => None,
            };
            let cur = match e_obj_get(fields, "cursor") {
                Some(c) => cursor_from_json(c),
                None => None,
            };
            match (inv, usr, cur, e_bool_field(fields, "has_more")) {
                (Some(invitees), Some(users), Some(cursor), Some(has_more)) => Some(
                    ListUsersOnFolderResponse { invitees, users, cursor, has_more },
                ),
                _ => None,
            }
        },
        _ => None,
    }
}

} // verus!

verus! {

// ---------------------------------------------------------------------------
// Folder information.
// ---------------------------------------------------------------------------

#[derive(PartialEq, Eq, Debug, Copy, Clone, Structural)]
pub enum FolderSharingPolicyType {
    Team,
    InviteOnly,
}

impl DeepView for FolderSharingPolicyType {
    type V = FolderSharingPolicyType;

    open spec fn deep_view(&self) -> FolderSharingPolicyType {
        *self
    }
}

/// Folder policies come back as tagged objects.
pub open spec fn spec_folder_sharing_policy_type(j: JsonV) -> Option<FolderSharingPolicyType> {
    match tag_of(j) {
        Some(t) => {
            if t == "team"@ {
                Some(FolderSharingPolicyType::Team)
            } else if t == "invite_only"@ {
                Some(FolderSharingPolicyType::InviteOnly)
            } else {
                None
            }
        },
        None => None,
    }
}

pub fn folder_sharing_policy_type_from_json(j: &Json) -> (r: Option<FolderSharingPolicyType>)
    ensures
        r == spec_folder_sharing_policy_type(j@),
{
    match e_tag_of(j) {
        Some(t) => {
            if str_eq(t.as_str(), "team") {
                Some(FolderSharingPolicyType::Team)
            } else if str_eq(t.as_str(), "invite_only") {
                Some(FolderSharingPolicyType::InviteOnly)
            } else {
                None
            }
        },
        None => None,
    }
}

/// One folder on the path containing a document.
#[derive(Debug)]
pub struct Folder {
    pub id: String,
    pub name: String,
}

pub struct FolderV {
    pub id: Seq<char>,
    pub name: Seq<char>,
}

impl DeepView for Folder {
    type V = FolderV;

    open spec fn deep_view(&self) -> FolderV {
        FolderV { id: self.id@, name: self.name@ }
    }
}

pub open spec fn spec_folder(j: JsonV) -> Option<FolderV> {
    match j {
        JsonV::Obj(fields) => match (str_field(fields, "id"@), str_field(fields, "name"@)) {
            (Some(i), Some(n)) => Some(FolderV { id: i, name: n }),
            _ => None,
        },
        _ => None,
    }
}

pub fn folder_from_json(j: &Json) -> (r: Option<Folder>)
    ensures
        r.deep_view() == spec_folder(j@),
{
    match j {
        Json::Obj(fields) => match (e_str_field(fields, "id"), e_str_field(fields, "name")) {
            (Some(i), Some(n)) => Some(Folder { id: i, name: n }),
            _ => None,
        },
        _ => None,
    }
}

pub open spec fn spec_folder_list(elems: Seq<JsonV>) -> Option<Seq<FolderV>>
    decreases elems.len(),
{
    if elems.len() == 0 {
        Some(Seq::empty())
    } else {
        match spec_folder(elems[0]) {
            Some(x) => match spec_folder_list(elems.subrange(1, elems.len() as int)) {
                Some(rest) => Some(seq![x] + rest),
                None => None,
            },
            None => None,
        }
    }
}

fn folder_list_from(v: &Vec<Json>, i: usize) -> (r: Option<Vec<Folder>>)
    requires
        i <= v@.len(),
    ensures
        r.deep_view() == spec_folder_list(json_view_seq(v@).subrange(i as int, v@.len() as int)),
    decreases v@.len() - i,
{
    proof {
        lemma_json_view_seq(v@);
    }
    let n = v.len();
    let ghost tail = json_view_seq(v@).subrange(i as int, v@.len() as int);
    if i >= n {
        let out: Vec<Folder> = Vec::new();
        proof {
            assert(tail =~= Seq::<JsonV>::empty());
            assert(out.deep_view() =~= Seq::<FolderV>::empty());
        }
        return Some(out);
    }
    proof {
        assert(tail[0] == json_view(v@[i as int]));
        assert(tail.subrange(1, tail.len() as int) =~= json_view_seq(v@).subrange(
            i as int + 1,
            v@.len() as int,
        ));
    }
    match folder_from_json(&v[i]) {
        None => None,
        Some(x) => match folder_list_from(v, i + 1) {
            None => None,
            Some(rest) => {
                let ghost gx = x;
                let ghost grest = rest.deep_view();
                let mut out = rest;
                out.insert(0, x);
                proof {
                    assert(out.deep_view() =~= seq![gx.deep_view()] + grest);
                }
                Some(out)
            },
        },
    }
}

/// Folder information for one document; empty when the document is
/// unfiled.
#[derive(Debug)]
pub struct FoldersContainingPaperDoc {
    pub folder_sharing_policy_type: FolderSharingPolicyType,
    pub folders: Vec<Folder>,
}

pub struct FoldersContainingPaperDocV {
    pub folder_sharing_policy_type: FolderSharingPolicyType,
    pub folders: Seq<FolderV>,
}

impl DeepView for FoldersContainingPaperDoc {
    type V = FoldersContainingPaperDocV;

    open spec fn deep_view(&self) -> FoldersContainingPaperDocV {
        FoldersContainingPaperDocV {
            folder_sharing_policy_type: self.folder_sharing_policy_type,
            folders: self.folders.deep_view(),
        }
    }
}

pub open spec fn spec_folders_containing_paper_doc(j: JsonV) -> Option<
    FoldersContainingPaperDocV,
> {
    match j {
        JsonV::Obj(fields) => {
            let pol = match obj_get(fields, "folder_sharing_policy_type"@) {
                Some(p) => spec_folder_sharing_policy_type(p),
                None => None,
            };
            let fl = match obj_get(fields, "folders"@) {
                Some(JsonV::Arr(elems)) => spec_folder_list(elems),
                _ => None,
            };
            match (pol, fl) {
                (Some(p), Some(folders)) => Some(
                    FoldersContainingPaperDocV { folder_sharing_policy_type: p, folders },
                ),
                _ => None,
            }
        },
        _ => None,
    }
}

pub fn folders_containing_paper_doc_from_json(j: &Json) -> (r: Option<FoldersContainingPaperDoc>)
    ensures
        r.deep_view() == spec_folders_containing_paper_doc(j@),
{
    match j {
        Json::Obj(fields) => {
            let pol = match e_obj_get(fields, "folder_sharing_policy_type") {
                Some(p) => folder_sharing_policy_type_from_json(p),
                None => None,
            };
            let fl: Option<Vec<Folder>> = match e_obj_get(fields, "folders") {
                Some(Json::Arr(elems)) => {
                    proof {
                        lemma_json_view_seq(elems@);
                        assert(json_view_seq(elems@).subrange(0, elems@.len() as int)
                            =~= json_view_seq(elems@));
                    }
                    folder_list_from(elems, 0)
                },
                _ => None,
            };
            match (pol, fl) {
                (Some(p), Some(folders)) => Some(
                    FoldersContainingPaperDoc { folder_sharing_policy_type: p, folders },
                ),
                _ => None,
            }
        },
        _ => None,
    }
}

// ---------------------------------------------------------------------------
// Listing documents.
// ---------------------------------------------------------------------------

#[derive(Debug)]
pub struct ListPaperDocsArgs {
    pub filter_by: Option<ListPaperDocsFilterBy>,
    pub sort_by: Option<ListPaperDocsSortBy>,
    pub sort_order: Option<ListPaperDocsSortOrder>,
    pub limit: usize,
}

pub struct ListPaperDocsArgsV {
    pub filter_by: Option<ListPaperDocsFilterBy>,
    pub sort_by: Option<ListPaperDocsSortBy>,
    pub sort_order: Option<ListPaperDocsSortOrder>,
    pub limit: int,
}

impl DeepView for ListPaperDocsArgs {
    type V = ListPaperDocsArgsV;

    open spec fn deep_view(&self) -> ListPaperDocsArgsV {
        ListPaperDocsArgsV {
            filter_by: self.filter_by.deep_view(),
            sort_by: self.sort_by.deep_view(),
            sort_order: self.sort_order.deep_view(),
            limit: self.limit as int,
        }
    }
}

/// The argument object on the wire; absent options are omitted.
pub open spec fn spec_list_paper_docs_args_json(a: ListPaperDocsArgsV) -> JsonV {
    JsonV::Obj(
        (match a.filter_by {
            Some(f) => seq![("filter_by"@, JsonV::Str(spec_filter_by_str(f)))],
            None => Seq::empty(),
        }) + (match a.sort_by {
            Some(f) => seq![("sort_by"@, JsonV::Str(spec_sort_by_str(f)))],
            None => Seq::empty(),
        }) + (match a.sort_order {
            Some(f) => seq![("sort_order"@, JsonV::Str(spec_sort_order_str(f)))],
            None => Seq::empty(),
        }) + seq![("limit"@, JsonV::Int(a.limit))],
    )
}

/// Builds the list arguments.  The limit must fit the wire's 64-bit signed
/// integers, a bound the machine forces rather than the API.
pub fn list_paper_docs_args_json(a: &ListPaperDocsArgs) -> (r: Json)
    requires
        a.limit <= 0x7fff_ffff_ffff_ffff,
    ensures
        r@ == spec_list_paper_docs_args_json(a.deep_view()),
{
    let mut fields: Vec<(String, Json)> = Vec::new();
    match &a.filter_by {
        Some(f) => fields.push(("filter_by".to_owned(), Json::Str(filter_by_str(f).to_owned()))),
        None => (),
    }
    match &a.sort_by {
        Some(f) => fields.push(("sort_by".to_owned(), Json::Str(sort_by_str(f).to_owned()))),
        None => (),
    }
    match &a.sort_order {
        Some(f) => fields.push(("sort_order".to_owned(), Json::Str(sort_order_str(f).to_owned()))),
        None => (),
    }
    fields.push(("limit".to_owned(), Json::Int(a.limit as i64)));
    proof {
        lemma_json_view_fields(fields@);
        assert(json_view_fields(fields@) =~= spec_list_paper_docs_args_json(a.deep_view())->Obj_0);
    }
    Json::Obj(fields)
}

/// What `docs/list` and its continuation return.
#[derive(Debug)]
pub struct ListPaperDocsResponse {
    pub doc_ids: Vec<String>,
    pub cursor: Cursor,
    pub has_more: bool,
}

pub struct ListPaperDocsResponseV {
    pub doc_ids: Seq<Seq<char>>,
    pub cursor: CursorV,
    pub has_more: bool,
}

impl DeepView for ListPaperDocsResponse {
    type V = ListPaperDocsResponseV;

    open spec fn deep_view(&self) -> ListPaperDocsResponseV {
        ListPaperDocsResponseV {
            doc_ids: self.doc_ids.deep_view(),
            cursor: self.cursor.deep_view(),
            has_more: self.has_more,
        }
    }
}

pub open spec fn spec_str_list(elems: Seq<JsonV>) -> Option<Seq<Seq<char>>>
    decreases elems.len(),
{
    if elems.len() == 0 {
        Some(Seq::empty())
    } else {
        match elems[0] {
            JsonV::Str(s) => match spec_str_list(elems.subrange(1, elems.len() as int)) {
                Some(rest) => Some(seq![s] + rest),
                None => None,
            },
            _ => None,
        }
    }
}

fn str_list_from(v: &Vec<Json>, i: usize) -> (r: Option<Vec<String>>)
    requires
        i <= v@.len(),
    ensures
        r.deep_view() == spec_str_list(json_view_seq(v@).subrange(i as int, v@.len() as int)),
    decreases v@.len() - i,
{
    proof {
        lemma_json_view_seq(v@);
    }
    let n = v.len();
    let ghost tail = json_view_seq(v@).subrange(i as int, v@.len() as int);
    if i >= n {
        let out: Vec<String> = Vec::new();
        proof {
            assert(tail =~= Seq::<JsonV>::empty());
            assert(out.deep_view() =~= Seq::<Seq<char>>::empty());
        }
        return Some(out);
    }
    proof {
        assert(tail[0] == json_view(v@[i as int]));
        assert(tail.subrange(1, tail.len() as int) =~= json_view_seq(v@).subrange(
            i as int + 1,
            v@.len() as int,
        ));
    }
    let x: String = match &v[i] {
        Json::Str(s) => s.clone(),
        _ => {
            return None;
        },
    };
    match str_list_from(v, i + 1) {
        None => None,
        Some(rest) => {
            let ghost gx = x@;
            let ghost grest = rest.deep_view();
            let mut out = rest;
            out.insert(0, x);
            proof {
                assert(out.deep_view() =~= seq![gx] + grest);
            }
            Some(out)
        },
    }
}

pub open spec fn spec_list_paper_docs_response(j: JsonV) -> Option<ListPaperDocsResponseV> {
    match j {
        JsonV::Obj(fields) => {
            let ids = match obj_get(fields, "doc_ids"@) {
                Some(JsonV::Arr(elems)) => spec_str_list(elems),
                _ => None,
            };
            let cur = match obj_get(fields, "cursor"@) {
                Some(c) => spec_cursor(c),
                None => None,
            };
            match (ids, cur, bool_field(fields, "has_more"@)) {
                (Some(doc_ids), Some(cursor), Some(has_more)) => Some(
                    ListPaperDocsResponseV { doc_ids, cursor, has_more },
                ),
                _ => None,
            }
        },
        _ => None,
    }
}

pub fn list_paper_docs_response_from_json(j: &Json) -> (r: Option<ListPaperDocsResponse>)
    ensures
        r.deep_view() == spec_list_paper_docs_response(j@),
{
    match j {
        Json::Obj(fields) => {
            let ids: Option<Vec<String>> = match e_obj_get(fields, "doc_ids") {
                Some(Json::Arr(elems)) => {
                    proof {
                        lemma_json_view_seq(elems@);
                        assert(json_view_seq(elems@).subrange(0, elems@.len() as int)
                            =~= json_view_seq(elems@));
                    }
                    str_list_from(elems, 0)
                },
                _ => None,
            };
            let cur = match e_obj_get(fields, "cursor") {
                Some(c) => cursor_from_json(c),
                None => None,
            };
            match (ids, cur, e_bool_field(fields, "has_more")) {
                (Some(doc_ids), Some(cursor), Some(has_more)) => Some(
                    ListPaperDocsResponse { doc_ids, cursor, has_more },
                ),
                _ => None,
            }
        },
        _ => None,
    }
}

#[derive(Debug)]
pub struct ListPaperDocsContinueArgs {
    pub cursor: String,
}

pub struct ListPaperDocsContinueArgsV {
    pub cursor: Seq<char>,
}

impl DeepView for ListPaperDocsContinueArgs {
    type V = ListPaperDocsContinueArgsV;

    open spec fn deep_view(&self) -> ListPaperDocsContinueArgsV {
        ListPaperDocsContinueArgsV { cursor: self.cursor@ }
    }
}

pub open spec fn spec_list_paper_docs_continue_args_json(a: ListPaperDocsContinueArgsV) -> JsonV {
    JsonV::Obj(seq![("cursor"@, JsonV::Str(a.cursor))])
}

pub fn list_paper_docs_continue_args_json(a: &ListPaperDocsContinueArgs) -> (r: Json)
    ensures
        r@ == spec_list_paper_docs_continue_args_json(a.deep_view()),
{
    let mut fields: Vec<(String, Json)> = Vec::new();
    fields.push(("cursor".to_owned(), Json::Str(a.cursor.clone())));
    proof {
        lemma_json_view_fields(fields@);
        assert(json_view_fields(fields@) =~= spec_list_paper_docs_continue_args_json(
            a.deep_view(),
        )->Obj_0);
    }
    Json::Obj(fields)
}

pub open spec fn spec_list_paper_docs_continue_args_from_json(j: JsonV) -> Option<
    ListPaperDocsContinueArgsV,
> {
    match j {
        JsonV::Obj(fields) => match str_field(fields, "cursor"@) {
            Some(c) => Some(ListPaperDocsContinueArgsV { cursor: c }),
            None => None,
        },
        _ => None,
    }
}

pub fn list_paper_docs_continue_args_from_json(j: &Json) -> (r: Option<ListPaperDocsContinueArgs>)
    ensures
        r.deep_view() == spec_list_paper_docs_continue_args_from_json(j@),
{
    match j {
        Json::Obj(fields) => match e_str_field(fields, "cursor") {
            Some(c) => Some(ListPaperDocsContinueArgs { cursor: c }),
            None => None,
        },
        _ => None,
    }
}

// ---------------------------------------------------------------------------
// Sharing policies.
// ---------------------------------------------------------------------------

#[derive(PartialEq, Eq, Debug, Copy, Clone, Structural)]
pub enum SharingPublicPolicyType {
    PeopleWithLinkCanEdit,
    PeopleWithLinkCanViewAndComment,
    InviteOnly,
    Disabled,
}

impl DeepView for SharingPublicPolicyType {
    type V = SharingPublicPolicyType;

    open spec fn deep_view(&self) -> SharingPublicPolicyType {
        *self
    }
}

/// The wire name of a public policy; sent as a plain string, received as a
/// tagged object.
pub open spec fn spec_public_policy_str(f: SharingPublicPolicyType) -> Seq<char> {
    match f {
        SharingPublicPolicyType::PeopleWithLinkCanEdit => "people_with_link_can_edit"@,
        SharingPublicPolicyType::PeopleWithLinkCanViewAndComment => {
            "people_with_link_can_view_and_comment"@
        },
        SharingPublicPolicyType::InviteOnly => "invite_only"@,
        SharingPublicPolicyType::Disabled => "disabled"@,
    }
}

pub fn public_policy_str(f: &SharingPublicPolicyType) -> (r: &'static str)
    ensures
        r@ == spec_public_policy_str(*f),
{
    match f {
        SharingPublicPolicyType::PeopleWithLinkCanEdit => "people_with_link_can_edit",
        SharingPublicPolicyType::PeopleWithLinkCanViewAndComment => {
            "people_with_link_can_view_and_comment"
        },
        SharingPublicPolicyType::InviteOnly => "invite_only",
        SharingPublicPolicyType::Disabled => "disabled",
    }
}

pub open spec fn spec_public_policy_of_tag(t: Seq<char>) -> Option<SharingPublicPolicyType> {
    if t == "people_with_link_can_edit"@ {
        Some(SharingPublicPolicyType::PeopleWithLinkCanEdit)
    } else if t == "people_with_link_can_view_and_comment"@ {
        Some(SharingPublicPolicyType::PeopleWithLinkCanViewAndComment)
    } else if t == "invite_only"@ {
        Some(SharingPublicPolicyType::InviteOnly)
    } else if t == "disabled"@ {
        Some(SharingPublicPolicyType::Disabled)
    } else {
        None
    }
}

pub open spec fn spec_public_policy(j: JsonV) -> Option<SharingPublicPolicyType> {
    match tag_of(j) {
        Some(t) => spec_public_policy_of_tag(t),
        None => None,
    }
}

pub fn public_policy_from_json(j: &Json) -> (r: Option<SharingPublicPolicyType>)
    ensures
        r == spec_public_policy(j@),
{
    match e_tag_of(j) {
        Some(t) => {
            if str_eq(t.as_str(), "people_with_link_can_edit") {
                Some(SharingPublicPolicyType::PeopleWithLinkCanEdit)
            } else if str_eq(t.as_str(), "people_with_link_can_view_and_comment") {
                Some(SharingPublicPolicyType::PeopleWithLinkCanViewAndComment)
            } else if str_eq(t.as_str(), "invite_only") {
                Some(SharingPublicPolicyType::InviteOnly)
            } else if str_eq(t.as_str(), "disabled") {
                Some(SharingPublicPolicyType::Disabled)
            } else {
                None
            }
        },
        None => None,
    }
}

#[derive(PartialEq, Eq, Debug, Copy, Clone, Structural)]
pub enum SharingTeamPolicyType {
    PeopleWithLinkCanEdit,
    PeopleWithLinkCanViewAndComment,
    InviteOnly,
}

impl DeepView for SharingTeamPolicyType {
    type V = SharingTeamPolicyType;

    open spec fn deep_view(&self) -> SharingTeamPolicyType {
        *self
    }
}

pub open spec fn spec_team_policy_str(f: SharingTeamPolicyType) -> Seq<char> {
    match f {
        SharingTeamPolicyType::PeopleWithLinkCanEdit => "people_with_link_can_edit"@,
        SharingTeamPolicyType::PeopleWithLinkCanViewAndComment => {
            "people_with_link_can_view_and_comment"@
        },
        SharingTeamPolicyType::InviteOnly => "invite_only"@,
    }
}

pub fn team_policy_str(f: &SharingTeamPolicyType) -> (r: &'static str)
    ensures
        r@ == spec_team_policy_str(*f),
{
    match f {
        SharingTeamPolicyType::PeopleWithLinkCanEdit => "people_with_link_can_edit",
        SharingTeamPolicyType::PeopleWithLinkCanViewAndComment => {
            "people_with_link_can_view_and_comment"
        },
        SharingTeamPolicyType::InviteOnly => "invite_only",
    }
}

pub open spec fn spec_team_policy(j: JsonV) -> Option<SharingTeamPolicyType> {
    match tag_of(j) {
        Some(t) => {
            if t == "people_with_link_can_edit"@ {
                Some(SharingTeamPolicyType::PeopleWithLinkCanEdit)
            } else if t == "people_with_link_can_view_and_comment"@ {
                Some(SharingTeamPolicyType::PeopleWithLinkCanViewAndComment)
            } else if t == "invite_only"@ {
                Some(SharingTeamPolicyType::InviteOnly)
            } else {
                None
            }
        },
        None => None,
    }
}

pub fn team_policy_from_json(j: &Json) -> (r: Option<SharingTeamPolicyType>)
    ensures
        r == spec_team_policy(j@),
{
    match e_tag_of(j) {
        Some(t) => {
            if str_eq(t.as_str(), "people_with_link_can_edit") {
                Some(SharingTeamPolicyType::PeopleWithLinkCanEdit)
            } else if str_eq(t.as_str(), "people_with_link_can_view_and_comment") {
                Some(SharingTeamPolicyType::PeopleWithLinkCanViewAndComment)
            } else if str_eq(t.as_str(), "invite_only") {
                Some(SharingTeamPolicyType::InviteOnly)
            } else {
                None
            }
        },
        None => None,
    }
}

/// The pair of sharing policies on one document.
#[derive(PartialEq, Eq, Debug, Copy, Clone, Structural)]
pub struct SharingPolicy {
    pub public_sharing_policy: Option<SharingPublicPolicyType>,
    pub team_sharing_policy: Option<SharingTeamPolicyType>,
}

impl DeepView for SharingPolicy {
    type V = SharingPolicy;

    open spec fn deep_view(&self) -> SharingPolicy {
        *self
    }
}

/// Reads the policy pair off a response body; each side may be absent or
/// `null`.
pub open spec fn spec_sharing_policy(j: JsonV) -> Option<SharingPolicy> {
    match j {
        JsonV::Obj(fields) => {
            let pub_p = match obj_get(fields, "public_sharing_policy"@) {
                None => Some(None),
                Some(JsonV::Null) => Some(None),
                Some(p) => match spec_public_policy(p) {
                    Some(v) => Some(Some(v)),
                    None => None,
                },
            };
            let team_p = match obj_get(fields, "team_sharing_policy"@) {
                None => Some(None),
                Some(JsonV::Null) => Some(None),
                Some(p) => match spec_team_policy(p) {
                    Some(v) => Some(Some(v)),
                    None => None,
                },
            };
            match (pub_p, team_p) {
                (Some(public_sharing_policy), Some(team_sharing_policy)) => Some(
                    SharingPolicy { public_sharing_policy, team_sharing_policy },
                ),
                _ => None,
            }
        },
        _ => None,
    }
}

pub fn sharing_policy_from_json(j: &Json) -> (r: Option<SharingPolicy>)
    ensures
        r == spec_sharing_policy(j@),
{
    match j {
        Json::Obj(fields) => {
            let pub_p: Option<Option<SharingPublicPolicyType>> = match e_obj_get(
                fields,
                "public_sharing_policy",
            ) {
                None => Some(None),
                Some(Json::Null) => Some(None),
                Some(p) => match public_policy_from_json(p) {
                    Some(v) => Some(Some(v)),
                    None => None,
                },
            };
            let team_p: Option<Option<SharingTeamPolicyType>> = match e_obj_get(
                fields,
                "team_sharing_policy",
            ) {
                None => Some(None),
                Some(Json::Null) => Some(None),
                Some(p) => match team_policy_from_json(p) {
                    Some(v) => Some(Some(v)),
                    None => None,
                },
            };
            match (pub_p, team_p) {
                (Some(public_sharing_policy), Some(team_sharing_policy)) => Some(
                    SharingPolicy { public_sharing_policy, team_sharing_policy },
                ),
                _ => None,
            }
        },
        _ => None,
    }
}

/// The `sharing_policy/set` argument: the document and the policies, each
/// written as its plain tag string, absent sides omitted.
pub open spec fn spec_sharing_policy_args_json(
    doc_id: Seq<char>,
    policy: SharingPolicy,
) -> JsonV {
    JsonV::Obj(
        seq![
            ("doc_id"@, JsonV::Str(doc_id)),
            (
                "sharing_policy"@,
                JsonV::Obj(
                    (match policy.public_sharing_policy {
                        Some(p) => seq![
                            ("public_sharing_policy"@, JsonV::Str(spec_public_policy_str(p))),
                        ],
                        None => Seq::empty(),
                    }) + (match policy.team_sharing_policy {
                        Some(p) => seq![
                            ("team_sharing_policy"@, JsonV::Str(spec_team_policy_str(p))),
                        ],
                        None => Seq::empty(),
                    }),
                ),
            ),
        ],
    )
}

pub fn sharing_policy_args_json(doc_id: &str, policy: &SharingPolicy) -> (r: Json)
    ensures
        r@ == spec_sharing_policy_args_json(doc_id@, *policy),
{
    let mut inner: Vec<(String, Json)> = Vec::new();
    match &policy.public_sharing_policy {
        Some(p) => inner.push(
            ("public_sharing_policy".to_owned(), Json::Str(public_policy_str(p).to_owned())),
        ),
        None => (),
    }
    match &policy.team_sharing_policy {
        Some(p) => inner.push(
            ("team_sharing_policy".to_owned(), Json::Str(team_policy_str(p).to_owned())),
        ),
        None => (),
    }
    proof {
        lemma_json_view_fields(inner@);
        assert(json_view_fields(inner@) =~= spec_sharing_policy_args_json(
            doc_id@,
            *policy,
        )->Obj_0[1].1->Obj_0);
    }
    let mut fields: Vec<(String, Json)> = Vec::new();
    fields.push(("doc_id".to_owned(), Json::Str(doc_id.to_owned())));
    fields.push(("sharing_policy".to_owned(), Json::Obj(inner)));
    proof {
        lemma_json_view_fields(fields@);
        assert(json_view_fields(fields@) =~= spec_sharing_policy_args_json(
            doc_id@,
            *policy,
        )->Obj_0);
    }
    Json::Obj(fields)
}

} // verus!

use crate::errors::{res_view, ErrorKind, ErrorKindV};
use crate::http::errors::{APIError, APIErrorV};
use crate::http::{
    find_header, header_lookup, is_success_status, spec_split_envelope, split_envelope,
    success_status, AuthSchemeV, ContentResponse, ContentResponseV, HttpRequest, RawOutcome,
    RawOutcomeV, RequestKindV, Response, ResponseV,
};
use crate::json::{json_text, json_to_string, json_from_str, parse_json};
use errors::{
    parse_doc_lookup_error, parse_list_docs_cursor_error, parse_list_users_cursor_error,
    parse_paper_doc_create_error, parse_paper_doc_update_error, spec_doc_lookup_error,
    spec_list_docs_cursor_error, spec_list_users_cursor_error, spec_paper_doc_create_error,
    spec_paper_doc_update_error, DocLookupError, ListDocsCursorError, ListUsersCursorError,
    PaperDocCreateError, PaperDocUpdateError,
};
use users::{
    add_paper_doc_user_json, add_user_member_result_list_from_json, list_users_args_json,
    list_users_continue_args_json, list_users_response_from_json, remove_paper_doc_user_json,
    spec_add_paper_doc_user_json, spec_add_user_member_result_list, spec_list_users_args_json,
    spec_list_users_continue_args_json, spec_list_users_response, AddPaperDocUser,
    AddPaperDocUserMemberResult, AddPaperDocUserMemberResultV, AddPaperDocUserRequestBuilder,
    ListUsersOnPaperDocArgs, ListUsersOnPaperDocContinueArgs, ListUsersOnPaperDocResponse,
    ListUsersOnPaperDocResponseV, MemberSelector, RemovePaperDocUser, UserOnPaperDocFilter,
};

verus! {

// ---------------------------------------------------------------------------
// The endpoints.  Each is a pair: a method that builds the request value,
// and a decoder that interprets the response the caller read back.
// ---------------------------------------------------------------------------

/// The body of a unit-valued success response: the provider answers these
/// calls with `null`.
pub open spec fn spec_unit_body(j: JsonV) -> bool {
    j == JsonV::Null
}

impl Paper {
    /// The request that marks a document as archived.
    pub fn archive_request(&self, doc_id: &str) -> (r: HttpRequest)
        ensures
            r.deep_view().url == "https://api.dropboxapi.com/2/paper/docs/archive"@,
            r.deep_view().auth == AuthSchemeV::Bearer(self.access_token@),
            r.deep_view().kind == (RequestKindV::Rpc {
                body: json_text(spec_ref_paper_doc_json(RefPaperDocV { doc_id: doc_id@ })),
            }),
    {
        let args = RefPaperDoc { doc_id: doc_id.to_owned() };
        let body = json_to_string(&ref_paper_doc_json(&args));
        crate::http::rpc_request(self, "https://api.dropboxapi.com/2/paper/docs/archive".to_owned(), body)
    }

    /// The request that creates a document; the caller sends the content
    /// bytes as the request body.
    pub fn create_request(&self, import_format: ImportFormat, parent_folder_id: Option<&str>) -> (r:
        HttpRequest)
        ensures
            r.deep_view().url == "https://api.dropboxapi.com/2/paper/docs/create"@,
            r.deep_view().auth == AuthSchemeV::Bearer(self.access_token@),
            r.deep_view().kind == (RequestKindV::ContentUpload {
                arg_header: json_text(
                    spec_paper_doc_create_args_json(
                        PaperDocCreateArgsV {
                            import_format,
                            parent_folder_id: match parent_folder_id {
                                Some(p) => Some(p@),
                                None => None,
                            },
                        },
                    ),
                ),
            }),
    {
        let args = PaperDocCreateArgs {
            import_format,
            parent_folder_id: match parent_folder_id {
                Some(p) => Some(p.to_owned()),
                None => None,
            },
        };
        let arg_header = json_to_string(&paper_doc_create_args_json(&args));
        crate::http::content_upload_request(self, "https://api.dropboxapi.com/2/paper/docs/create".to_owned(), arg_header)
    }

    /// The request that exports a document; the response body is the
    /// exported content, and the metadata comes back in a header.
    pub fn download_request(&self, doc_id: &str, export_format: ExportFormat) -> (r: HttpRequest)
        ensures
            r.deep_view().url == "https://api.dropboxapi.com/2/paper/docs/download"@,
            r.deep_view().auth == AuthSchemeV::Bearer(self.access_token@),
            r.deep_view().kind == (RequestKindV::ContentDownload {
                arg_header: json_text(
                    spec_paper_doc_export_json(
                        PaperDocExportV { doc_id: doc_id@, export_format },
                    ),
                ),
            }),
    {
        let args = PaperDocExport { doc_id: doc_id.to_owned(), export_format };
        let arg_header = json_to_string(&paper_doc_export_json(&args));
        crate::http::content_download_request(self, "https://api.dropboxapi.com/2/paper/docs/download".to_owned(), arg_header)
    }

    /// The request that lists the users on the folder of a document.
    pub fn list_folder_users_request(&self, doc_id: &str, limit: i32) -> (r: HttpRequest)
        ensures
            r.deep_view().url == "https://api.dropboxapi.com/2/paper/docs/folder_users/list"@,
            r.deep_view().auth == AuthSchemeV::Bearer(self.access_token@),
            r.deep_view().kind == (RequestKindV::Rpc {
                body: json_text(
                    spec_list_users_on_folder_args_json(
                        ListUsersOnFolderArgsV { doc_id: doc_id@, limit: limit as int },
                    ),
                ),
            }),
    {
        let args = ListUsersOnFolderArgs { doc_id: doc_id.to_owned(), limit };
        let body = json_to_string(&list_users_on_folder_args_json(&args));
        crate::http::rpc_request(self, "https://api.dropboxapi.com/2/paper/docs/folder_users/list".to_owned(), body)
    }

    /// The request that continues a folder-users listing from a cursor.
    pub fn list_folder_users_continue_request(&self, doc_id: &str, cursor: &str) -> (r:
        HttpRequest)
        ensures
            r.deep_view().url
                == "https://api.dropboxapi.com/2/paper/docs/folder_users/list/continue"@,
            r.deep_view().auth == AuthSchemeV::Bearer(self.access_token@),
            r.deep_view().kind == (RequestKindV::Rpc {
                body: json_text(
                    spec_list_users_on_folder_continue_args_json(
                        ListUsersOnFolderContinueArgsV { doc_id: doc_id@, cursor: cursor@ },
                    ),
                ),
            }),
    {
        let args = ListUsersOnFolderContinueArgs {
            doc_id: doc_id.to_owned(),
            cursor: cursor.to_owned(),
        };
        let body = json_to_string(&list_users_on_folder_continue_args_json(&args));
        crate::http::rpc_request(self, "https://api.dropboxapi.com/2/paper/docs/folder_users/list/continue".to_owned(), body)
    }

    /// The request that retrieves folder information for a document.
    pub fn get_folder_info_request(&self, doc_id: &str) -> (r: HttpRequest)
        ensures
            r.deep_view().url == "https://api.dropboxapi.com/2/paper/docs/get_folder_info"@,
            r.deep_view().auth == AuthSchemeV::Bearer(self.access_token@),
            r.deep_view().kind == (RequestKindV::Rpc {
                body: json_text(spec_ref_paper_doc_json(RefPaperDocV { doc_id: doc_id@ })),
            }),
    {
        let args = RefPaperDoc { doc_id: doc_id.to_owned() };
        let body = json_to_string(&ref_paper_doc_json(&args));
        crate::http::rpc_request(self, "https://api.dropboxapi.com/2/paper/docs/get_folder_info".to_owned(), body)
    }

    /// The request that lists documents.
    pub fn list_request(
        &self,
        filter_by: Option<ListPaperDocsFilterBy>,
        sort_by: Option<ListPaperDocsSortBy>,
        sort_order: Option<ListPaperDocsSortOrder>,
        limit: usize,
    ) -> (r: HttpRequest)
        requires
            limit <= 0x7fff_ffff_ffff_ffff,
        ensures
            r.deep_view().url == "https://api.dropboxapi.com/2/paper/docs/list"@,
            r.deep_view().auth == AuthSchemeV::Bearer(self.access_token@),
            r.deep_view().kind == (RequestKindV::Rpc {
                body: json_text(
                    spec_list_paper_docs_args_json(
                        ListPaperDocsArgsV {
                            filter_by,
                            sort_by,
                            sort_order,
                            limit: limit as int,
                        },
                    ),
                ),
            }),
    {
        let args = ListPaperDocsArgs { filter_by, sort_by, sort_order, limit };
        let body = json_to_string(&list_paper_docs_args_json(&args));
        crate::http::rpc_request(self, "https://api.dropboxapi.com/2/paper/docs/list".to_owned(), body)
    }

    /// The request that continues a document listing from a cursor.
    pub fn list_continue_request(&self, cursor: &str) -> (r: HttpRequest)
        ensures
            r.deep_view().url == "https://api.dropboxapi.com/2/paper/docs/list/continue"@,
            r.deep_view().auth == AuthSchemeV::Bearer(self.access_token@),
            r.deep_view().kind == (RequestKindV::Rpc {
                body: json_text(
                    spec_list_paper_docs_continue_args_json(
                        ListPaperDocsContinueArgsV { cursor: cursor@ },
                    ),
                ),
            }),
    {
        let args = ListPaperDocsContinueArgs { cursor: cursor.to_owned() };
        let body = json_to_string(&list_paper_docs_continue_args_json(&args));
        crate::http::rpc_request(self, "https://api.dropboxapi.com/2/paper/docs/list/continue".to_owned(), body)
    }

    /// The request that permanently deletes a document.
    pub fn permanently_delete_request(&self, doc_id: &str) -> (r: HttpRequest)
        ensures
            r.deep_view().url == "https://api.dropboxapi.com/2/paper/docs/permanently_delete"@,
            r.deep_view().auth == AuthSchemeV::Bearer(self.access_token@),
            r.deep_view().kind == (RequestKindV::Rpc {
                body: json_text(spec_ref_paper_doc_json(RefPaperDocV { doc_id: doc_id@ })),
            }),
    {
        let args = RefPaperDoc { doc_id: doc_id.to_owned() };
        let body = json_to_string(&ref_paper_doc_json(&args));
        crate::http::rpc_request(self, "https://api.dropboxapi.com/2/paper/docs/permanently_delete".to_owned(), body)
    }

    /// The request that reads the sharing policy of a document.
    pub fn get_sharing_policy_request(&self, doc_id: &str) -> (r: HttpRequest)
        ensures
            r.deep_view().url == "https://api.dropboxapi.com/2/paper/docs/sharing_policy/get"@,
            r.deep_view().auth == AuthSchemeV::Bearer(self.access_token@),
            r.deep_view().kind == (RequestKindV::Rpc {
                body: json_text(spec_ref_paper_doc_json(RefPaperDocV { doc_id: doc_id@ })),
            }),
    {
        let args = RefPaperDoc { doc_id: doc_id.to_owned() };
        let body = json_to_string(&ref_paper_doc_json(&args));
        crate::http::rpc_request(self, "https://api.dropboxapi.com/2/paper/docs/sharing_policy/get".to_owned(), body)
    }

    /// The request that sets the sharing policy of a document.
    pub fn set_sharing_policy_request(
        &self,
        doc_id: &str,
        public_sharing_policy: Option<SharingPublicPolicyType>,
        team_sharing_policy: Option<SharingTeamPolicyType>,
    ) -> (r: HttpRequest)
        ensures
            r.deep_view().url == "https://api.dropboxapi.com/2/paper/docs/sharing_policy/set"@,
            r.deep_view().auth == AuthSchemeV::Bearer(self.access_token@),
            r.deep_view().kind == (RequestKindV::Rpc {
                body: json_text(
                    spec_sharing_policy_args_json(
                        doc_id@,
                        SharingPolicy { public_sharing_policy, team_sharing_policy },
                    ),
                ),
            }),
    {
        let policy = SharingPolicy { public_sharing_policy, team_sharing_policy };
        let body = json_to_string(&sharing_policy_args_json(doc_id, &policy));
        crate::http::rpc_request(self, "https://api.dropboxapi.com/2/paper/docs/sharing_policy/set".to_owned(), body)
    }

    /// The request that updates a document; the caller sends the content
    /// bytes as the request body.
    pub fn update_request(
        &self,
        doc_id: &str,
        doc_update_policy: PaperDocUpdatePolicy,
        revision: i64,
        import_format: ImportFormat,
    ) -> (r: HttpRequest)
        ensures
            r.deep_view().url == "https://api.dropboxapi.com/2/paper/docs/update"@,
            r.deep_view().auth == AuthSchemeV::Bearer(self.access_token@),
            r.deep_view().kind == (RequestKindV::ContentUpload {
                arg_header: json_text(
                    spec_paper_doc_update_args_json(
                        PaperDocUpdateArgsV {
                            doc_id: doc_id@,
                            doc_update_policy,
                            revision: revision as int,
                            import_format,
                        },
                    ),
                ),
            }),
    {
        let args = PaperDocUpdateArgs {
            doc_id: doc_id.to_owned(),
            doc_update_policy,
            revision,
            import_format,
        };
        let arg_header = json_to_string(&paper_doc_update_args_json(&args));
        crate::http::content_upload_request(self, "https://api.dropboxapi.com/2/paper/docs/update".to_owned(), arg_header)
    }

    /// Starts an add-users request for a document.
    pub fn users_add(&self, doc_id: &str) -> (r: AddPaperDocUserRequestBuilder)
        ensures
            r.access_token@ == self.access_token@,
            r.doc_id@ == doc_id@,
            r.members.deep_view() == Seq::<users::AddMemberV>::empty(),
            r.custom_message is None,
            r.quiet == false,
    {
        AddPaperDocUserRequestBuilder::new(self, doc_id)
    }

    /// The request that lists the users of a document.
    pub fn users_list_request(&self, doc_id: &str, limit: i32, filter_by: UserOnPaperDocFilter) -> (
        r: HttpRequest)
        ensures
            r.deep_view().url == "https://api.dropboxapi.com/2/paper/docs/users/list"@,
            r.deep_view().auth == AuthSchemeV::Bearer(self.access_token@),
            r.deep_view().kind == (RequestKindV::Rpc {
                body: json_text(
                    spec_list_users_args_json(
                        users::ListUsersOnPaperDocArgsV {
                            doc_id: doc_id@,
                            limit: limit as int,
                            filter_by,
                        },
                    ),
                ),
            }),
    {
        let args = ListUsersOnPaperDocArgs { doc_id: doc_id.to_owned(), limit, filter_by };
        let body = json_to_string(&list_users_args_json(&args));
        crate::http::rpc_request(self, "https://api.dropboxapi.com/2/paper/docs/users/list".to_owned(), body)
    }

    /// The request that continues a user listing from a cursor.
    pub fn users_list_continue_request(&self, doc_id: &str, cursor: &str) -> (r: HttpRequest)
        ensures
            r.deep_view().url == "https://api.dropboxapi.com/2/paper/docs/users/list/continue"@,
            r.deep_view().auth == AuthSchemeV::Bearer(self.access_token@),
            r.deep_view().kind == (RequestKindV::Rpc {
                body: json_text(
                    spec_list_users_continue_args_json(
                        users::ListUsersOnPaperDocContinueArgsV {
                            doc_id: doc_id@,
                            cursor: cursor@,
                        },
                    ),
                ),
            }),
    {
        let args = ListUsersOnPaperDocContinueArgs {
            doc_id: doc_id.to_owned(),
            cursor: cursor.to_owned(),
        };
        let body = json_to_string(&list_users_continue_args_json(&args));
        crate::http::rpc_request(self, "https://api.dropboxapi.com/2/paper/docs/users/list/continue".to_owned(), body)
    }

    /// The request that removes one user from a document.
    pub fn users_remove_request(&self, doc_id: &str, member: &MemberSelector) -> (r: HttpRequest)
        ensures
            r.deep_view().url == "https://api.dropboxapi.com/2/paper/docs/users/remove"@,
            r.deep_view().auth == AuthSchemeV::Bearer(self.access_token@),
            r.deep_view().kind == (RequestKindV::Rpc {
                body: json_text(
                    users::spec_remove_paper_doc_user_json(
                        users::RemovePaperDocUserV {
                            doc_id: doc_id@,
                            member: member.deep_view(),
                        },
                    ),
                ),
            }),
    {
        let args = RemovePaperDocUser { doc_id: doc_id.to_owned(), member: member.clone() };
        let body = json_to_string(&remove_paper_doc_user_json(&args));
        crate::http::rpc_request(self, "https://api.dropboxapi.com/2/paper/docs/users/remove".to_owned(), body)
    }
}

impl AddPaperDocUserRequestBuilder {
    /// The accumulated request, ready to send.
    pub fn request(&self) -> (r: HttpRequest)
        ensures
            r.deep_view().url == "https://api.dropboxapi.com/2/paper/docs/users/add"@,
            r.deep_view().auth == AuthSchemeV::Bearer(self.access_token@),
            r.deep_view().kind == (RequestKindV::Rpc {
                body: json_text(
                    spec_add_paper_doc_user_json(
                        users::AddPaperDocUserV {
                            doc_id: self.doc_id@,
                            members: self.members.deep_view(),
                            custom_message: self.custom_message.deep_view(),
                            quiet: self.quiet,
                        },
                    ),
                ),
            }),
    {
        let args = self.build();
        let body = json_to_string(&add_paper_doc_user_json(&args));
        crate::http::rpc_request(self, "https://api.dropboxapi.com/2/paper/docs/users/add".to_owned(), body)
    }
}

} // verus!

verus! {

// ---------------------------------------------------------------------------
// Response decoders.  Each follows the envelope contract: a 2xx body must
// parse as the endpoint's success type, anything else must parse as the
// endpoint's error body; neither failure is ever absorbed silently.
// ---------------------------------------------------------------------------

pub open spec fn spec_archive_response(
    status: u16,
    headers: Seq<(Seq<char>, Seq<char>)>,
    body: Seq<char>,
) -> Result<ResponseV<()>, ErrorKindV> {
    match spec_split_envelope(status, body) {
        None => Err(ErrorKindV::Decode { status, body }),
        Some(RawOutcomeV::Success { json }) => {
            if spec_unit_body(json) {
                Ok(ResponseV { body: (), status, headers })
            } else {
                Err(ErrorKindV::Decode { status, body })
            }
        },
        Some(RawOutcomeV::Failure { summary, error, user_message }) => {
            match spec_doc_lookup_error(error) {
                Some(e) => Err(
                    ErrorKindV::DocLookupErr(APIErrorV { status, body, error: e, user_message }),
                ),
                None => Err(ErrorKindV::Decode { status, body }),
            }
        },
    }
}

pub fn archive_response(status: u16, headers: Vec<(String, String)>, body: &str) -> (r: Result<
    Response<()>,
    ErrorKind,
>)
    ensures
        res_view(r) == spec_archive_response(status, headers.deep_view(), body@),
{
    match split_envelope(status, body) {
        None => Err(ErrorKind::Decode { status, body: body.to_owned() }),
        Some(RawOutcome::Success { json }) => match json {
            Json::Null => Ok(Response { body: (), status, headers }),
            _ => Err(ErrorKind::Decode { status, body: body.to_owned() }),
        },
        Some(RawOutcome::Failure { summary, error, user_message }) => {
            match parse_doc_lookup_error(&error) {
                Some(e) => Err(
                    ErrorKind::DocLookupErr(
                        APIError { status, body: body.to_owned(), error: e, user_message },
                    ),
                ),
                None => Err(ErrorKind::Decode { status, body: body.to_owned() }),
            }
        },
    }
}

pub open spec fn spec_create_response(
    status: u16,
    headers: Seq<(Seq<char>, Seq<char>)>,
    body: Seq<char>,
) -> Result<ResponseV<PaperDocCreateUpdateResultV>, ErrorKindV> {
    match spec_split_envelope(status, body) {
        None => Err(ErrorKindV::Decode { status, body }),
        Some(RawOutcomeV::Success { json }) => match spec_create_update_result(json) {
            Some(v) => Ok(ResponseV { body: v, status, headers }),
            None => Err(ErrorKindV::Decode { status, body }),
        },
        Some(RawOutcomeV::Failure { summary, error, user_message }) => {
            match spec_paper_doc_create_error(error) {
                Some(e) => Err(
                    ErrorKindV::PaperDocCreateErr(
                        APIErrorV { status, body, error: e, user_message },
                    ),
                ),
                None => Err(ErrorKindV::Decode { status, body }),
            }
        },
    }
}

pub fn create_response(status: u16, headers: Vec<(String, String)>, body: &str) -> (r: Result<
    Response<PaperDocCreateUpdateResult>,
    ErrorKind,
>)
    ensures
        res_view(r) == spec_create_response(status, headers.deep_view(), body@),
{
    match split_envelope(status, body) {
        None => Err(ErrorKind::Decode { status, body: body.to_owned() }),
        Some(RawOutcome::Success { json }) => match create_update_result_from_json(&json) {
            Some(v) => Ok(Response { body: v, status, headers }),
            None => Err(ErrorKind::Decode { status, body: body.to_owned() }),
        },
        Some(RawOutcome::Failure { summary, error, user_message }) => {
            match parse_paper_doc_create_error(&error) {
                Some(e) => Err(
                    ErrorKind::PaperDocCreateErr(
                        APIError { status, body: body.to_owned(), error: e, user_message },
                    ),
                ),
                None => Err(ErrorKind::Decode { status, body: body.to_owned() }),
            }
        },
    }
}

/// The download decoder: on success the metadata rides in the dedicated
/// response header and the body stays with the caller as a stream, so
/// `body` here is the error text and is read only on a non-2xx status.  A
/// 2xx without the header is a missing-header error — the response does
/// not have the documented shape — and never a decode error.
pub open spec fn spec_download_response(
    status: u16,
    headers: Seq<(Seq<char>, Seq<char>)>,
    body: Seq<char>,
) -> Result<ContentResponseV<PaperDocExportResultV>, ErrorKindV> {
    if is_success_status(status) {
        match header_lookup(headers, "Dropbox-API-Result"@) {
            None => Err(ErrorKindV::HeaderNotFound("Dropbox-API-Result"@)),
            Some(hv) => match parse_json(hv) {
                Some(j) => match spec_export_result(j) {
                    Some(m) => Ok(ContentResponseV { body: m, status, headers }),
                    None => Err(ErrorKindV::Decode { status, body: hv }),
                },
                None => Err(ErrorKindV::Decode { status, body: hv }),
            },
        }
    } else {
        match spec_split_envelope(status, body) {
            None => Err(ErrorKindV::Decode { status, body }),
            Some(RawOutcomeV::Success { json }) => Err(ErrorKindV::Decode { status, body }),
            Some(RawOutcomeV::Failure { summary, error, user_message }) => {
                match spec_doc_lookup_error(error) {
                    Some(e) => Err(
                        ErrorKindV::DocLookupErr(
                            APIErrorV { status, body, error: e, user_message },
                        ),
                    ),
                    None => Err(ErrorKindV::Decode { status, body }),
                }
            },
        }
    }
}

/// Law: a download-shaped success without the metadata header is the
/// missing-header failure — not a decode failure, and not an empty result.
pub proof fn lemma_download_missing_header(
    status: u16,
    headers: Seq<(Seq<char>, Seq<char>)>,
    body: Seq<char>,
)
    requires
        is_success_status(status),
        header_lookup(headers, "Dropbox-API-Result"@) is None,
    ensures
        spec_download_response(status, headers, body) == Err::<
            ContentResponseV<PaperDocExportResultV>,
            ErrorKindV,
        >(ErrorKindV::HeaderNotFound("Dropbox-API-Result"@)),
{
}

pub fn download_response(status: u16, headers: Vec<(String, String)>, body: &str) -> (r: Result<
    ContentResponse<PaperDocExportResult>,
    ErrorKind,
>)
    ensures
        res_view(r) == spec_download_response(status, headers.deep_view(), body@),
{
    if success_status(status) {
        let hv: String = match find_header(&headers, crate::http::header::result_header_name()) {
            None => {
                return Err(
                    ErrorKind::HeaderNotFound(crate::http::header::result_header_name().to_owned()),
                );
            },
            Some(v) => v.clone(),
        };
        match json_from_str(hv.as_str()) {
            Some(j) => match export_result_from_json(&j) {
                Some(m) => Ok(ContentResponse { body: m, status, headers }),
                None => Err(ErrorKind::Decode { status, body: hv }),
            },
            None => Err(ErrorKind::Decode { status, body: hv }),
        }
    } else {
        match split_envelope(status, body) {
            None => Err(ErrorKind::Decode { status, body: body.to_owned() }),
            Some(RawOutcome::Success { json }) => Err(
                ErrorKind::Decode { status, body: body.to_owned() },
            ),
            Some(RawOutcome::Failure { summary, error, user_message }) => {
                match parse_doc_lookup_error(&error) {
                    Some(e) => Err(
                        ErrorKind::DocLookupErr(
                            APIError { status, body: body.to_owned(), error: e, user_message },
                        ),
                    ),
                    None => Err(ErrorKind::Decode { status, body: body.to_owned() }),
                }
            },
        }
    }
}

pub open spec fn spec_list_folder_users_response(
    status: u16,
    headers: Seq<(Seq<char>, Seq<char>)>,
    body: Seq<char>,
) -> Result<ResponseV<ListUsersOnFolderResponseV>, ErrorKindV> {
    match spec_split_envelope(status, body) {
        None => Err(ErrorKindV::Decode { status, body }),
        Some(RawOutcomeV::Success { json }) => match spec_list_users_on_folder_response(json) {
            Some(v) => Ok(ResponseV { body: v, status, headers }),
            None => Err(ErrorKindV::Decode { status, body }),
        },
        Some(RawOutcomeV::Failure { summary, error, user_message }) => {
            match spec_doc_lookup_error(error) {
                Some(e) => Err(
                    ErrorKindV::DocLookupErr(APIErrorV { status, body, error: e, user_message }),
                ),
                None => Err(ErrorKindV::Decode { status, body }),
            }
        },
    }
}

pub fn list_folder_users_response(status: u16, headers: Vec<(String, String)>, body: &str) -> (r:
    Result<Response<ListUsersOnFolderResponse>, ErrorKind>)
    ensures
        res_view(r) == spec_list_folder_users_response(status, headers.deep_view(), body@),
{
    match split_envelope(status, body) {
        None => Err(ErrorKind::Decode { status, body: body.to_owned() }),
        Some(RawOutcome::Success { json }) => match list_users_on_folder_response_from_json(
            &json,
        ) {
            Some(v) => Ok(Response { body: v, status, headers }),
            None => Err(ErrorKind::Decode { status, body: body.to_owned() }),
        },
        Some(RawOutcome::Failure { summary, error, user_message }) => {
            match parse_doc_lookup_error(&error) {
                Some(e) => Err(
                    ErrorKind::DocLookupErr(
                        APIError { status, body: body.to_owned(), error: e, user_message },
                    ),
                ),
                None => Err(ErrorKind::Decode { status, body: body.to_owned() }),
            }
        },
    }
}

pub open spec fn spec_list_folder_users_continue_response(
    status: u16,
    headers: Seq<(Seq<char>, Seq<char>)>,
    body: Seq<char>,
) -> Result<ResponseV<ListUsersOnFolderResponseV>, ErrorKindV> {
    match spec_split_envelope(status, body) {
        None => Err(ErrorKindV::Decode { status, body }),
        Some(RawOutcomeV::Success { json }) => match spec_list_users_on_folder_response(json) {
            Some(v) => Ok(ResponseV { body: v, status, headers }),
            None => Err(ErrorKindV::Decode { status, body }),
        },
        Some(RawOutcomeV::Failure { summary, error, user_message }) => {
            match spec_list_users_cursor_error(error) {
                Some(e) => Err(
                    ErrorKindV::ListUsersCursorErr(
                        APIErrorV { status, body, error: e, user_message },
                    ),
                ),
                None => Err(ErrorKindV::Decode { status, body }),
            }
        },
    }
}

pub fn list_folder_users_continue_response(
    status: u16,
    headers: Vec<(String, String)>,
    body: &str,
) -> (r: Result<Response<ListUsersOnFolderResponse>, ErrorKind>)
    ensures
        res_view(r) == spec_list_folder_users_continue_response(
            status,
            headers.deep_view(),
            body@,
        ),
{
    match split_envelope(status, body) {
        None => Err(ErrorKind::Decode { status, body: body.to_owned() }),
        Some(RawOutcome::Success { json }) => match list_users_on_folder_response_from_json(
            &json,
        ) {
            Some(v) => Ok(Response { body: v, status, headers }),
            None => Err(ErrorKind::Decode { status, body: body.to_owned() }),
        },
        Some(RawOutcome::Failure { summary, error, user_message }) => {
            match parse_list_users_cursor_error(&error) {
                Some(e) => Err(
                    ErrorKind::ListUsersCursorErr(
                        APIError { status, body: body.to_owned(), error: e, user_message },
                    ),
                ),
                None => Err(ErrorKind::Decode { status, body: body.to_owned() }),
            }
        },
    }
}

pub open spec fn spec_get_folder_info_response(
    status: u16,
    headers: Seq<(Seq<char>, Seq<char>)>,
    body: Seq<char>,
) -> Result<ResponseV<FoldersContainingPaperDocV>, ErrorKindV> {
    match spec_split_envelope(status, body) {
        None => Err(ErrorKindV::Decode { status, body }),
        Some(RawOutcomeV::Success { json }) => match spec_folders_containing_paper_doc(json) {
            Some(v) => Ok(ResponseV { body: v, status, headers }),
            None => Err(ErrorKindV::Decode { status, body }),
        },
        Some(RawOutcomeV::Failure { summary, error, user_message }) => {
            match spec_doc_lookup_error(error) {
                Some(e) => Err(
                    ErrorKindV::DocLookupErr(APIErrorV { status, body, error: e, user_message }),
                ),
                None => Err(ErrorKindV::Decode { status, body }),
            }
        },
    }
}

pub fn get_folder_info_response(status: u16, headers: Vec<(String, String)>, body: &str) -> (r:
    Result<Response<FoldersContainingPaperDoc>, ErrorKind>)
    ensures
        res_view(r) == spec_get_folder_info_response(status, headers.deep_view(), body@),
{
    match split_envelope(status, body) {
        None => Err(ErrorKind::Decode { status, body: body.to_owned() }),
        Some(RawOutcome::Success { json }) => match folders_containing_paper_doc_from_json(&json) {
            Some(v) => Ok(Response { body: v, status, headers }),
            None => Err(ErrorKind::Decode { status, body: body.to_owned() }),
        },
        Some(RawOutcome::Failure { summary, error, user_message }) => {
            match parse_doc_lookup_error(&error) {
                Some(e) => Err(
                    ErrorKind::DocLookupErr(
                        APIError { status, body: body.to_owned(), error: e, user_message },
                    ),
                ),
                None => Err(ErrorKind::Decode { status, body: body.to_owned() }),
            }
        },
    }
}

/// The list endpoint is contracted to answer success-class only: a typed
/// error body here is an internal-consistency violation, decoded but never
/// treated as recoverable.
pub open spec fn spec_list_response(
    status: u16,
    headers: Seq<(Seq<char>, Seq<char>)>,
    body: Seq<char>,
) -> Result<ResponseV<ListPaperDocsResponseV>, ErrorKindV> {
    match spec_split_envelope(status, body) {
        None => Err(ErrorKindV::Decode { status, body }),
        Some(RawOutcomeV::Success { json }) => match spec_list_paper_docs_response(json) {
            Some(v) => Ok(ResponseV { body: v, status, headers }),
            None => Err(ErrorKindV::Decode { status, body }),
        },
        Some(RawOutcomeV::Failure { summary, error, user_message }) => {
            if error == JsonV::Null {
                Err(ErrorKindV::ContractViolation { status, body })
            } else {
                Err(ErrorKindV::Decode { status, body })
            }
        },
    }
}

pub fn list_response(status: u16, headers: Vec<(String, String)>, body: &str) -> (r: Result<
    Response<ListPaperDocsResponse>,
    ErrorKind,
>)
    ensures
        res_view(r) == spec_list_response(status, headers.deep_view(), body@),
{
    match split_envelope(status, body) {
        None => Err(ErrorKind::Decode { status, body: body.to_owned() }),
        Some(RawOutcome::Success { json }) => match list_paper_docs_response_from_json(&json) {
            Some(v) => Ok(Response { body: v, status, headers }),
            None => Err(ErrorKind::Decode { status, body: body.to_owned() }),
        },
        Some(RawOutcome::Failure { summary, error, user_message }) => match error {
            Json::Null => Err(ErrorKind::ContractViolation { status, body: body.to_owned() }),
            _ => Err(ErrorKind::Decode { status, body: body.to_owned() }),
        },
    }
}

pub open spec fn spec_list_continue_response(
    status: u16,
    headers: Seq<(Seq<char>, Seq<char>)>,
    body: Seq<char>,
) -> Result<ResponseV<ListPaperDocsResponseV>, ErrorKindV> {
    match spec_split_envelope(status, body) {
        None => Err(ErrorKindV::Decode { status, body }),
        Some(RawOutcomeV::Success { json }) => match spec_list_paper_docs_response(json) {
            Some(v) => Ok(ResponseV { body: v, status, headers }),
            None => Err(ErrorKindV::Decode { status, body }),
        },
        Some(RawOutcomeV::Failure { summary, error, user_message }) => {
            match spec_list_docs_cursor_error(error) {
                Some(e) => Err(
                    ErrorKindV::ListDocsCursorErr(
                        APIErrorV { status, body, error: e, user_message },
                    ),
                ),
                None => Err(ErrorKindV::Decode { status, body }),
            }
        },
    }
}

pub fn list_continue_response(status: u16, headers: Vec<(String, String)>, body: &str) -> (r:
    Result<Response<ListPaperDocsResponse>, ErrorKind>)
    ensures
        res_view(r) == spec_list_continue_response(status, headers.deep_view(), body@),
{
    match split_envelope(status, body) {
        None => Err(ErrorKind::Decode { status, body: body.to_owned() }),
        Some(RawOutcome::Success { json }) => match list_paper_docs_response_from_json(&json) {
            Some(v) => Ok(Response { body: v, status, headers }),
            None => Err(ErrorKind::Decode { status, body: body.to_owned() }),
        },
        Some(RawOutcome::Failure { summary, error, user_message }) => {
            match parse_list_docs_cursor_error(&error) {
                Some(e) => Err(
                    ErrorKind::ListDocsCursorErr(
                        APIError { status, body: body.to_owned(), error: e, user_message },
                    ),
                ),
                None => Err(ErrorKind::Decode { status, body: body.to_owned() }),
            }
        },
    }
}

pub open spec fn spec_permanently_delete_response(
    status: u16,
    headers: Seq<(Seq<char>, Seq<char>)>,
    body: Seq<char>,
) -> Result<ResponseV<()>, ErrorKindV> {
    spec_archive_response(status, headers, body)
}

pub fn permanently_delete_response(status: u16, headers: Vec<(String, String)>, body: &str) -> (r:
    Result<Response<()>, ErrorKind>)
    ensures
        res_view(r) == spec_permanently_delete_response(status, headers.deep_view(), body@),
{
    archive_response(status, headers, body)
}

pub open spec fn spec_get_sharing_policy_response(
    status: u16,
    headers: Seq<(Seq<char>, Seq<char>)>,
    body: Seq<char>,
) -> Result<ResponseV<SharingPolicy>, ErrorKindV> {
    match spec_split_envelope(status, body) {
        None => Err(ErrorKindV::Decode { status, body }),
        Some(RawOutcomeV::Success { json }) => match spec_sharing_policy(json) {
            Some(v) => Ok(ResponseV { body: v, status, headers }),
            None => Err(ErrorKindV::Decode { status, body }),
        },
        Some(RawOutcomeV::Failure { summary, error, user_message }) => {
            match spec_doc_lookup_error(error) {
                Some(e) => Err(
                    ErrorKindV::DocLookupErr(APIErrorV { status, body, error: e, user_message }),
                ),
                None => Err(ErrorKindV::Decode { status, body }),
            }
        },
    }
}

pub fn get_sharing_policy_response(status: u16, headers: Vec<(String, String)>, body: &str) -> (r:
    Result<Response<SharingPolicy>, ErrorKind>)
    ensures
        res_view(r) == spec_get_sharing_policy_response(status, headers.deep_view(), body@),
{
    match split_envelope(status, body) {
        None => Err(ErrorKind::Decode { status, body: body.to_owned() }),
        Some(RawOutcome::Success { json }) => match sharing_policy_from_json(&json) {
            Some(v) => Ok(Response { body: v, status, headers }),
            None => Err(ErrorKind::Decode { status, body: body.to_owned() }),
        },
        Some(RawOutcome::Failure { summary, error, user_message }) => {
            match parse_doc_lookup_error(&error) {
                Some(e) => Err(
                    ErrorKind::DocLookupErr(
                        APIError { status, body: body.to_owned(), error: e, user_message },
                    ),
                ),
                None => Err(ErrorKind::Decode { status, body: body.to_owned() }),
            }
        },
    }
}

pub open spec fn spec_set_sharing_policy_response(
    status: u16,
    headers: Seq<(Seq<char>, Seq<char>)>,
    body: Seq<char>,
) -> Result<ResponseV<()>, ErrorKindV> {
    spec_archive_response(status, headers, body)
}

pub fn set_sharing_policy_response(status: u16, headers: Vec<(String, String)>, body: &str) -> (r:
    Result<Response<()>, ErrorKind>)
    ensures
        res_view(r) == spec_set_sharing_policy_response(status, headers.deep_view(), body@),
{
    archive_response(status, headers, body)
}

pub open spec fn spec_update_response(
    status: u16,
    headers: Seq<(Seq<char>, Seq<char>)>,
    body: Seq<char>,
) -> Result<ResponseV<PaperDocCreateUpdateResultV>, ErrorKindV> {
    match spec_split_envelope(status, body) {
        None => Err(ErrorKindV::Decode { status, body }),
        Some(RawOutcomeV::Success { json }) => match spec_create_update_result(json) {
            Some(v) => Ok(ResponseV { body: v, status, headers }),
            None => Err(ErrorKindV::Decode { status, body }),
        },
        Some(RawOutcomeV::Failure { summary, error, user_message }) => {
            match spec_paper_doc_update_error(error) {
                Some(e) => Err(
                    ErrorKindV::PaperDocUpdateErr(
                        APIErrorV { status, body, error: e, user_message },
                    ),
                ),
                None => Err(ErrorKindV::Decode { status, body }),
            }
        },
    }
}

pub fn update_response(status: u16, headers: Vec<(String, String)>, body: &str) -> (r: Result<
    Response<PaperDocCreateUpdateResult>,
    ErrorKind,
>)
    ensures
        res_view(r) == spec_update_response(status, headers.deep_view(), body@),
{
    match split_envelope(status, body) {
        None => Err(ErrorKind::Decode { status, body: body.to_owned() }),
        Some(RawOutcome::Success { json }) => match create_update_result_from_json(&json) {
            Some(v) => Ok(Response { body: v, status, headers }),
            None => Err(ErrorKind::Decode { status, body: body.to_owned() }),
        },
        Some(RawOutcome::Failure { summary, error, user_message }) => {
            match parse_paper_doc_update_error(&error) {
                Some(e) => Err(
                    ErrorKind::PaperDocUpdateErr(
                        APIError { status, body: body.to_owned(), error: e, user_message },
                    ),
                ),
                None => Err(ErrorKind::Decode { status, body: body.to_owned() }),
            }
        },
    }
}

pub open spec fn spec_users_add_response(
    status: u16,
    headers: Seq<(Seq<char>, Seq<char>)>,
    body: Seq<char>,
) -> Result<ResponseV<Seq<AddPaperDocUserMemberResultV>>, ErrorKindV> {
    match spec_split_envelope(status, body) {
        None => Err(ErrorKindV::Decode { status, body }),
        Some(RawOutcomeV::Success { json }) => match json {
            JsonV::Arr(elems) => match spec_add_user_member_result_list(elems) {
                Some(v) => Ok(ResponseV { body: v, status, headers }),
                None => Err(ErrorKindV::Decode { status, body }),
            },
            _ => Err(ErrorKindV::Decode { status, body }),
        },
        Some(RawOutcomeV::Failure { summary, error, user_message }) => {
            match spec_doc_lookup_error(error) {
                Some(e) => Err(
                    ErrorKindV::DocLookupErr(APIErrorV { status, body, error: e, user_message }),
                ),
                None => Err(ErrorKindV::Decode { status, body }),
            }
        },
    }
}

pub fn users_add_response(status: u16, headers: Vec<(String, String)>, body: &str) -> (r: Result<
    Response<Vec<AddPaperDocUserMemberResult>>,
    ErrorKind,
>)
    ensures
        res_view(r) == spec_users_add_response(status, headers.deep_view(), body@),
{
    match split_envelope(status, body) {
        None => Err(ErrorKind::Decode { status, body: body.to_owned() }),
        Some(RawOutcome::Success { json }) => match add_user_member_result_list_from_json(&json) {
            Some(v) => Ok(Response { body: v, status, headers }),
            None => Err(ErrorKind::Decode { status, body: body.to_owned() }),
        },
        Some(RawOutcome::Failure { summary, error, user_message }) => {
            match parse_doc_lookup_error(&error) {
                Some(e) => Err(
                    ErrorKind::DocLookupErr(
                        APIError { status, body: body.to_owned(), error: e, user_message },
                    ),
                ),
                None => Err(ErrorKind::Decode { status, body: body.to_owned() }),
            }
        },
    }
}

pub open spec fn spec_users_list_response(
    status: u16,
    headers: Seq<(Seq<char>, Seq<char>)>,
    body: Seq<char>,
) -> Result<ResponseV<ListUsersOnPaperDocResponseV>, ErrorKindV> {
    match spec_split_envelope(status, body) {
        None => Err(ErrorKindV::Decode { status, body }),
        Some(RawOutcomeV::Success { json }) => match spec_list_users_response(json) {
            Some(v) => Ok(ResponseV { body: v, status, headers }),
            None => Err(ErrorKindV::Decode { status, body }),
        },
        Some(RawOutcomeV::Failure { summary, error, user_message }) => {
            match spec_doc_lookup_error(error) {
                Some(e) => Err(
                    ErrorKindV::DocLookupErr(APIErrorV { status, body, error: e, user_message }),
                ),
                None => Err(ErrorKindV::Decode { status, body }),
            }
        },
    }
}

pub fn users_list_response(status: u16, headers: Vec<(String, String)>, body: &str) -> (r: Result<
    Response<ListUsersOnPaperDocResponse>,
    ErrorKind,
>)
    ensures
        res_view(r) == spec_users_list_response(status, headers.deep_view(), body@),
{
    match split_envelope(status, body) {
        None => Err(ErrorKind::Decode { status, body: body.to_owned() }),
        Some(RawOutcome::Success { json }) => match list_users_response_from_json(&json) {
            Some(v) => Ok(Response { body: v, status, headers }),
            None => Err(ErrorKind::Decode { status, body: body.to_owned() }),
        },
        Some(RawOutcome::Failure { summary, error, user_message }) => {
            match parse_doc_lookup_error(&error) {
                Some(e) => Err(
                    ErrorKind::DocLookupErr(
                        APIError { status, body: body.to_owned(), error: e, user_message },
                    ),
                ),
                None => Err(ErrorKind::Decode { status, body: body.to_owned() }),
            }
        },
    }
}

pub open spec fn spec_users_list_continue_response(
    status: u16,
    headers: Seq<(Seq<char>, Seq<char>)>,
    body: Seq<char>,
) -> Result<ResponseV<ListUsersOnPaperDocResponseV>, ErrorKindV> {
    match spec_split_envelope(status, body) {
        None => Err(ErrorKindV::Decode { status, body }),
        Some(RawOutcomeV::Success { json }) => match spec_list_users_response(json) {
            Some(v) => Ok(ResponseV { body: v, status, headers }),
            None => Err(ErrorKindV::Decode { status, body }),
        },
        Some(RawOutcomeV::Failure { summary, error, user_message }) => {
            match spec_list_users_cursor_error(error) {
                Some(e) => Err(
                    ErrorKindV::ListUsersCursorErr(
                        APIErrorV { status, body, error: e, user_message },
                    ),
                ),
                None => Err(ErrorKindV::Decode { status, body }),
            }
        },
    }
}

pub fn users_list_continue_response(status: u16, headers: Vec<(String, String)>, body: &str) -> (r:
    Result<Response<ListUsersOnPaperDocResponse>, ErrorKind>)
    ensures
        res_view(r) == spec_users_list_continue_response(status, headers.deep_view(), body@),
{
    match split_envelope(status, body) {
        None => Err(ErrorKind::Decode { status, body: body.to_owned() }),
        Some(RawOutcome::Success { json }) => match list_users_response_from_json(&json) {
            Some(v) => Ok(Response { body: v, status, headers }),
            None => Err(ErrorKind::Decode { status, body: body.to_owned() }),
        },
        Some(RawOutcome::Failure { summary, error, user_message }) => {
            match parse_list_users_cursor_error(&error) {
                Some(e) => Err(
                    ErrorKind::ListUsersCursorErr(
                        APIError { status, body: body.to_owned(), error: e, user_message },
                    ),
                ),
                None => Err(ErrorKind::Decode { status, body: body.to_owned() }),
            }
        },
    }
}

pub open spec fn spec_users_remove_response(
    status: u16,
    headers: Seq<(Seq<char>, Seq<char>)>,
    body: Seq<char>,
) -> Result<ResponseV<()>, ErrorKindV> {
    spec_archive_response(status, headers, body)
}

pub fn users_remove_response(status: u16, headers: Vec<(String, String)>, body: &str) -> (r:
    Result<Response<()>, ErrorKind>)
    ensures
        res_view(r) == spec_users_remove_response(status, headers.deep_view(), body@),
{
    archive_response(status, headers, body)
}

} // verus!

verus! {

// ---------------------------------------------------------------------------
// Reading argument objects back.  Together with the encoders above these
// close the encode/decode round trip of every argument type.
// ---------------------------------------------------------------------------

pub open spec fn spec_filter_by_of(s: Seq<char>) -> Option<ListPaperDocsFilterBy> {
    if s == "docs_accessed"@ {
        Some(ListPaperDocsFilterBy::DocsAccessed)
    } else if s == "docs_created"@ {
        Some(ListPaperDocsFilterBy::DocsCreated)
    } else {
        None
    }
}

pub fn filter_by_of(s: &str) -> (r: Option<ListPaperDocsFilterBy>)
    ensures
        r == spec_filter_by_of(s@),
{
    if str_eq(s, "docs_accessed") {
        Some(ListPaperDocsFilterBy::DocsAccessed)
    } else if str_eq(s, "docs_created") {
        Some(ListPaperDocsFilterBy::DocsCreated)
    } else {
        None
    }
}

pub open spec fn spec_sort_by_of(s: Seq<char>) -> Option<ListPaperDocsSortBy> {
    if s == "accessed"@ {
        Some(ListPaperDocsSortBy::Accessed)
    } else if s == "modified"@ {
        Some(ListPaperDocsSortBy::Modified)
    } else if s == "created"@ {
        Some(ListPaperDocsSortBy::Created)
    } else {
        None
    }
}

pub fn sort_by_of(s: &str) -> (r: Option<ListPaperDocsSortBy>)
    ensures
        r == spec_sort_by_of(s@),
{
    if str_eq(s, "accessed") {
        Some(ListPaperDocsSortBy::Accessed)
    } else if str_eq(s, "modified") {
        Some(ListPaperDocsSortBy::Modified)
    } else if str_eq(s, "created") {
        Some(ListPaperDocsSortBy::Created)
    } else {
        None
    }
}

pub open spec fn spec_sort_order_of(s: Seq<char>) -> Option<ListPaperDocsSortOrder> {
    if s == "ascending"@ {
        Some(ListPaperDocsSortOrder::Ascending)
    } else if s == "descending"@ {
        Some(ListPaperDocsSortOrder::Descending)
    } else {
        None
    }
}

pub fn sort_order_of(s: &str) -> (r: Option<ListPaperDocsSortOrder>)
    ensures
        r == spec_sort_order_of(s@),
{
    if str_eq(s, "ascending") {
        Some(ListPaperDocsSortOrder::Ascending)
    } else if str_eq(s, "descending") {
        Some(ListPaperDocsSortOrder::Descending)
    } else {
        None
    }
}

/// Reads the list arguments back, each option absent or its wire name.
pub open spec fn spec_list_paper_docs_args_from_json(j: JsonV) -> Option<ListPaperDocsArgsV> {
    match j {
        JsonV::Obj(fields) => {
            let fb = match obj_get(fields, "filter_by"@) {
                None => Some(None),
                Some(JsonV::Str(s)) => match spec_filter_by_of(s) {
                    Some(f) => Some(Some(f)),
                    None => None,
                },
                Some(_) => None,
            };
            let sb = match obj_get(fields, "sort_by"@) {
                None => Some(None),
                Some(JsonV::Str(s)) => match spec_sort_by_of(s) {
                    Some(f) => Some(Some(f)),
                    None => None,
                },
                Some(_) => None,
            };
            let so = match obj_get(fields, "sort_order"@) {
                None => Some(None),
                Some(JsonV::Str(s)) => match spec_sort_order_of(s) {
                    Some(f) => Some(Some(f)),
                    None => None,
                },
                Some(_) => None,
            };
            match (fb, sb, so, int_field(fields, "limit"@)) {
                (Some(filter_by), Some(sort_by), Some(sort_order), Some(l)) => {
                    if 0 <= l && l <= usize::MAX {
                        Some(ListPaperDocsArgsV { filter_by, sort_by, sort_order, limit: l })
                    } else {
                        None
                    }
                },
                _ => None,
            }
        },
        _ => None,
    }
}

pub fn list_paper_docs_args_from_json(j: &Json) -> (r: Option<ListPaperDocsArgs>)
    ensures
        r.deep_view() == spec_list_paper_docs_args_from_json(j@),
{
    match j {
        Json::Obj(fields) => {
            let fb: Option<Option<ListPaperDocsFilterBy>> = match e_obj_get(fields, "filter_by") {
                None => Some(None),
                Some(Json::Str(s)) => match filter_by_of(s.as_str()) {
                    Some(f) => Some(Some(f)),
                    None => None,
                },
                Some(_) => None,
            };
            let sb: Option<Option<ListPaperDocsSortBy>> = match e_obj_get(fields, "sort_by") {
                None => Some(None),
                Some(Json::Str(s)) => match sort_by_of(s.as_str()) {
                    Some(f) => Some(Some(f)),
                    None => None,
                },
                Some(_) => None,
            };
            let so: Option<Option<ListPaperDocsSortOrder>> = match e_obj_get(
                fields,
                "sort_order",
            ) {
                None => Some(None),
                Some(Json::Str(s)) => match sort_order_of(s.as_str()) {
                    Some(f) => Some(Some(f)),
                    None => None,
                },
                Some(_) => None,
            };
            match (fb, sb, so, e_int_field(fields, "limit")) {
                (Some(filter_by), Some(sort_by), Some(sort_order), Some(l)) => {
                    if 0 <= l && l as u64 <= usize::MAX as u64 {
                        Some(
                            ListPaperDocsArgs {
                                filter_by,
                                sort_by,
                                sort_order,
                                limit: l as usize,
                            },
                        )
                    } else {
                        None
                    }
                },
                _ => None,
            }
        },
        _ => None,
    }
}

/// Reads the sharing-policy argument back.
pub open spec fn spec_sharing_policy_args_from_json(j: JsonV) -> Option<(Seq<char>, SharingPolicy)> {
    match j {
        JsonV::Obj(fields) => match (str_field(fields, "doc_id"@), obj_get(
            fields,
            "sharing_policy"@,
        )) {
            (Some(d), Some(JsonV::Obj(inner))) => {
                let pp = match obj_get(inner, "public_sharing_policy"@) {
                    None => Some(None),
                    Some(JsonV::Str(s)) => match spec_public_policy_of_tag(s) {
                        Some(p) => Some(Some(p)),
                        None => None,
                    },
                    Some(_) => None,
                };
                let tp = match obj_get(inner, "team_sharing_policy"@) {
                    None => Some(None),
                    Some(JsonV::Str(s)) => {
                        if s == "people_with_link_can_edit"@ {
                            Some(Some(SharingTeamPolicyType::PeopleWithLinkCanEdit))
                        } else if s == "people_with_link_can_view_and_comment"@ {
                            Some(Some(SharingTeamPolicyType::PeopleWithLinkCanViewAndComment))
                        } else if s == "invite_only"@ {
                            Some(Some(SharingTeamPolicyType::InviteOnly))
                        } else {
                            None
                        }
                    },
                    Some(_) => None,
                };
                match (pp, tp) {
                    (Some(public_sharing_policy), Some(team_sharing_policy)) => Some(
                        (d, SharingPolicy { public_sharing_policy, team_sharing_policy }),
                    ),
                    _ => None,
                }
            },
            _ => None,
        },
        _ => None,
    }
}

pub fn sharing_policy_args_from_json(j: &Json) -> (r: Option<(String, SharingPolicy)>)
    ensures
        match r {
            Some(p) => spec_sharing_policy_args_from_json(j@) == Some((p.0@, p.1)),
            None => spec_sharing_policy_args_from_json(j@) is None,
        },
{
    match j {
        Json::Obj(fields) => match (e_str_field(fields, "doc_id"), e_obj_get(
            fields,
            "sharing_policy",
        )) {
            (Some(d), Some(Json::Obj(inner))) => {
                let pp: Option<Option<SharingPublicPolicyType>> = match e_obj_get(
                    inner,
                    "public_sharing_policy",
                ) {
                    None => Some(None),
                    Some(Json::Str(s)) => {
                        if str_eq(s.as_str(), "people_with_link_can_edit") {
                            Some(Some(SharingPublicPolicyType::PeopleWithLinkCanEdit))
                        } else if str_eq(s.as_str(), "people_with_link_can_view_and_comment") {
                            Some(Some(SharingPublicPolicyType::PeopleWithLinkCanViewAndComment))
                        } else if str_eq(s.as_str(), "invite_only") {
                            Some(Some(SharingPublicPolicyType::InviteOnly))
                        } else if str_eq(s.as_str(), "disabled") {
                            Some(Some(SharingPublicPolicyType::Disabled))
                        } else {
                            None
                        }
                    },
                    Some(_) => None,
                };
                let tp: Option<Option<SharingTeamPolicyType>> = match e_obj_get(
                    inner,
                    "team_sharing_policy",
                ) {
                    None => Some(None),
                    Some(Json::Str(s)) => {
                        if str_eq(s.as_str(), "people_with_link_can_edit") {
                            Some(Some(SharingTeamPolicyType::PeopleWithLinkCanEdit))
                        } else if str_eq(s.as_str(), "people_with_link_can_view_and_comment") {
                            Some(Some(SharingTeamPolicyType::PeopleWithLinkCanViewAndComment))
                        } else if str_eq(s.as_str(), "invite_only") {
                            Some(Some(SharingTeamPolicyType::InviteOnly))
                        } else {
                            None
                        }
                    },
                    Some(_) => None,
                };
                match (pp, tp) {
                    (Some(public_sharing_policy), Some(team_sharing_policy)) => Some(
                        (d, SharingPolicy { public_sharing_policy, team_sharing_policy }),
                    ),
                    _ => None,
                }
            },
            _ => None,
        },
        _ => None,
    }
}

} // verus!

use crate::json::{lemma_parse_json_text, lemma_wf_json_fields_all, wf_json};

verus! {

// ---------------------------------------------------------------------------
// The encode/decode round trip of the argument objects: encoding an
// argument to the JSON text of the side-channel header and reading that
// text back yields an equal argument.
// ---------------------------------------------------------------------------

/// Law: the document-reference argument survives its wire round trip.
pub proof fn lemma_ref_paper_doc_round_trip(a: RefPaperDocV)
    ensures
        spec_ref_paper_doc_from_json(spec_ref_paper_doc_json(a)) == Some(a),
        parse_json(json_text(spec_ref_paper_doc_json(a))) == Some(spec_ref_paper_doc_json(a)),
{
    let j = spec_ref_paper_doc_json(a);
    let fs = j->Obj_0;
    assert(wf_json(j)) by {
        lemma_wf_json_fields_all(fs);
    }
    lemma_parse_json_text(j);
    assert(spec_ref_paper_doc_from_json(j) == Some(a));
}

} // verus!

verus! {

proof fn lemma_import_format_round(f: ImportFormat)
    ensures
        spec_import_format_of(spec_import_format_str(f)) == Some(f),
{
    reveal_strlit("html");
    reveal_strlit("markdown");
    reveal_strlit("plain_text");
    assert(("markdown"@).len() == 8);
    assert(("html"@).len() == 4);
    crate::json::lemma_strlit_ne("markdown"@, "html"@);
    assert(("plain_text"@).len() == 10);
    assert(("html"@).len() == 4);
    crate::json::lemma_strlit_ne("plain_text"@, "html"@);
    assert(("plain_text"@).len() == 10);
    assert(("markdown"@).len() == 8);
    crate::json::lemma_strlit_ne("plain_text"@, "markdown"@);
    match f {
        ImportFormat::Html => {
            assert(spec_import_format_str(f) == "html"@);
            assert(spec_import_format_of("html"@) == Some(ImportFormat::Html));
        },
        ImportFormat::Markdown => {
            assert("markdown"@ != "html"@);
            assert(spec_import_format_of("markdown"@) == Some(ImportFormat::Markdown));
        },
        ImportFormat::PlainText => {
            assert("plain_text"@ != "html"@);
            assert("plain_text"@ != "markdown"@);
            assert(spec_import_format_of("plain_text"@) == Some(ImportFormat::PlainText));
        },
    }
}

proof fn lemma_export_format_round(f: ExportFormat)
    ensures
        spec_export_format_of(spec_export_format_str(f)) == Some(f),
{
    reveal_strlit("html");
    reveal_strlit("markdown");
    assert(("markdown"@).len() == 8);
    assert(("html"@).len() == 4);
    crate::json::lemma_strlit_ne("markdown"@, "html"@);
}

proof fn lemma_update_policy_round(f: PaperDocUpdatePolicy)
    ensures
        spec_update_policy_of(spec_update_policy_str(f)) == Some(f),
{
    reveal_strlit("append");
    reveal_strlit("prepend");
    reveal_strlit("overwrite_all");
    assert(("prepend"@).len() == 7);
    assert(("append"@).len() == 6);
    crate::json::lemma_strlit_ne("prepend"@, "append"@);
    assert(("overwrite_all"@).len() == 13);
    assert(("append"@).len() == 6);
    crate::json::lemma_strlit_ne("overwrite_all"@, "append"@);
    assert(("overwrite_all"@).len() == 13);
    assert(("prepend"@).len() == 7);
    crate::json::lemma_strlit_ne("overwrite_all"@, "prepend"@);
}

/// Law: the create argument survives its wire round trip.
pub proof fn lemma_paper_doc_create_args_round_trip(a: PaperDocCreateArgsV)
    ensures
        spec_paper_doc_create_args_from_json(spec_paper_doc_create_args_json(a)) == Some(a),
        parse_json(json_text(spec_paper_doc_create_args_json(a))) == Some(
            spec_paper_doc_create_args_json(a),
        ),
{
    let j = spec_paper_doc_create_args_json(a);
    let fs = j->Obj_0;
    assert(wf_json(j)) by {
        lemma_wf_json_fields_all(fs);
    }
    lemma_parse_json_text(j);
    reveal_strlit("import_format");
    reveal_strlit("parent_folder_id");
    assert(("import_format"@).len() == 13);
    assert(("parent_folder_id"@).len() == 16);
    crate::json::lemma_strlit_ne("import_format"@, "parent_folder_id"@);
    lemma_import_format_round(a.import_format);
    match a.parent_folder_id {
        Some(p) => {
            assert(fs =~= seq![
                ("import_format"@, JsonV::Str(spec_import_format_str(a.import_format))),
                ("parent_folder_id"@, JsonV::Str(p)),
            ]);
        },
        None => {
            assert(fs =~= seq![
                ("import_format"@, JsonV::Str(spec_import_format_str(a.import_format))),
            ]);
        },
    }
    reveal_with_fuel(crate::json::obj_get, 10);
    assert(spec_paper_doc_create_args_from_json(j) == Some(a));
}

/// Law: the export argument survives its wire round trip.
pub proof fn lemma_paper_doc_export_round_trip(a: PaperDocExportV)
    ensures
        spec_paper_doc_export_from_json(spec_paper_doc_export_json(a)) == Some(a),
        parse_json(json_text(spec_paper_doc_export_json(a))) == Some(spec_paper_doc_export_json(a)),
{
    let j = spec_paper_doc_export_json(a);
    assert(wf_json(j)) by {
        lemma_wf_json_fields_all(j->Obj_0);
    }
    lemma_parse_json_text(j);
    reveal_strlit("doc_id");
    reveal_strlit("export_format");
    assert(("doc_id"@).len() == 6);
    assert(("export_format"@).len() == 13);
    crate::json::lemma_strlit_ne("doc_id"@, "export_format"@);
    lemma_export_format_round(a.export_format);
    reveal_with_fuel(crate::json::obj_get, 10);
    assert(spec_paper_doc_export_from_json(j) == Some(a));
}

/// Law: the update argument survives its wire round trip.
pub proof fn lemma_paper_doc_update_args_round_trip(a: PaperDocUpdateArgsV)
    requires
        -0x8000_0000_0000_0000 <= a.revision <= 0x7fff_ffff_ffff_ffff,
    ensures
        spec_paper_doc_update_args_from_json(spec_paper_doc_update_args_json(a)) == Some(a),
        parse_json(json_text(spec_paper_doc_update_args_json(a))) == Some(
            spec_paper_doc_update_args_json(a),
        ),
{
    let j = spec_paper_doc_update_args_json(a);
    assert(wf_json(j)) by {
        lemma_wf_json_fields_all(j->Obj_0);
    }
    lemma_parse_json_text(j);
    reveal_strlit("doc_id");
    reveal_strlit("doc_update_policy");
    reveal_strlit("revision");
    reveal_strlit("import_format");
    assert(("doc_id"@).len() == 6);
    assert(("doc_update_policy"@).len() == 17);
    crate::json::lemma_strlit_ne("doc_id"@, "doc_update_policy"@);
    assert(("doc_id"@).len() == 6);
    assert(("revision"@).len() == 8);
    crate::json::lemma_strlit_ne("doc_id"@, "revision"@);
    assert(("doc_id"@).len() == 6);
    assert(("import_format"@).len() == 13);
    crate::json::lemma_strlit_ne("doc_id"@, "import_format"@);
    assert(("doc_update_policy"@).len() == 17);
    assert(("revision"@).len() == 8);
    crate::json::lemma_strlit_ne("doc_update_policy"@, "revision"@);
    assert(("doc_update_policy"@).len() == 17);
    assert(("import_format"@).len() == 13);
    crate::json::lemma_strlit_ne("doc_update_policy"@, "import_format"@);
    assert(("revision"@).len() == 8);
    assert(("import_format"@).len() == 13);
    crate::json::lemma_strlit_ne("revision"@, "import_format"@);
    lemma_update_policy_round(a.doc_update_policy);
    lemma_import_format_round(a.import_format);
    reveal_with_fuel(crate::json::obj_get, 10);
    assert(spec_paper_doc_update_args_from_json(j) == Some(a));
}

/// Law: the folder-users list argument survives its wire round trip.
pub proof fn lemma_list_users_on_folder_args_round_trip(a: ListUsersOnFolderArgsV)
    requires
        -0x8000_0000 <= a.limit <= 0x7fff_ffff,
    ensures
        spec_list_users_on_folder_args_from_json(spec_list_users_on_folder_args_json(a)) == Some(a),
        parse_json(json_text(spec_list_users_on_folder_args_json(a))) == Some(
            spec_list_users_on_folder_args_json(a),
        ),
{
    let j = spec_list_users_on_folder_args_json(a);
    assert(wf_json(j)) by {
        lemma_wf_json_fields_all(j->Obj_0);
    }
    lemma_parse_json_text(j);
    reveal_strlit("doc_id");
    reveal_strlit("limit");
    assert(("doc_id"@).len() == 6);
    assert(("limit"@).len() == 5);
    crate::json::lemma_strlit_ne("doc_id"@, "limit"@);
    reveal_with_fuel(crate::json::obj_get, 10);
    assert(spec_list_users_on_folder_args_from_json(j) == Some(a));
}

/// Law: the folder-users continuation argument survives its round trip.
pub proof fn lemma_list_users_on_folder_continue_args_round_trip(a: ListUsersOnFolderContinueArgsV)
    ensures
        spec_list_users_on_folder_continue_args_from_json(
            spec_list_users_on_folder_continue_args_json(a),
        ) == Some(a),
        parse_json(json_text(spec_list_users_on_folder_continue_args_json(a))) == Some(
            spec_list_users_on_folder_continue_args_json(a),
        ),
{
    let j = spec_list_users_on_folder_continue_args_json(a);
    assert(wf_json(j)) by {
        lemma_wf_json_fields_all(j->Obj_0);
    }
    lemma_parse_json_text(j);
    reveal_strlit("doc_id");
    reveal_strlit("cursor");
    assert(("doc_id"@)[0] == 'd');
    assert(("cursor"@)[0] == 'c');
    assert(("doc_id"@).len() == 6);
    assert(("cursor"@).len() == 6);
    crate::json::lemma_strlit_ne("doc_id"@, "cursor"@);
    reveal_with_fuel(crate::json::obj_get, 10);
    assert(spec_list_users_on_folder_continue_args_from_json(j) == Some(a));
}

/// Law: the list argument survives its wire round trip.
pub proof fn lemma_list_paper_docs_args_round_trip(a: ListPaperDocsArgsV)
    requires
        0 <= a.limit <= usize::MAX,
        a.limit <= 0x7fff_ffff_ffff_ffff,
    ensures
        spec_list_paper_docs_args_from_json(spec_list_paper_docs_args_json(a)) == Some(a),
        parse_json(json_text(spec_list_paper_docs_args_json(a))) == Some(
            spec_list_paper_docs_args_json(a),
        ),
{
    let j = spec_list_paper_docs_args_json(a);
    let fs = j->Obj_0;
    assert(wf_json(j)) by {
        lemma_wf_json_fields_all(fs);
    }
    lemma_parse_json_text(j);
    reveal_strlit("filter_by");
    reveal_strlit("sort_by");
    reveal_strlit("sort_order");
    reveal_strlit("limit");
    reveal_strlit("docs_accessed");
    reveal_strlit("docs_created");
    reveal_strlit("accessed");
    reveal_strlit("modified");
    reveal_strlit("created");
    reveal_strlit("ascending");
    reveal_strlit("descending");
    assert(("filter_by"@).len() == 9);
    assert(("sort_by"@).len() == 7);
    crate::json::lemma_strlit_ne("filter_by"@, "sort_by"@);
    assert(("filter_by"@).len() == 9);
    assert(("sort_order"@).len() == 10);
    crate::json::lemma_strlit_ne("filter_by"@, "sort_order"@);
    assert(("filter_by"@).len() == 9);
    assert(("limit"@).len() == 5);
    crate::json::lemma_strlit_ne("filter_by"@, "limit"@);
    assert(("sort_by"@).len() == 7);
    assert(("sort_order"@).len() == 10);
    crate::json::lemma_strlit_ne("sort_by"@, "sort_order"@);
    assert(("sort_by"@).len() == 7);
    assert(("limit"@).len() == 5);
    crate::json::lemma_strlit_ne("sort_by"@, "limit"@);
    assert(("sort_order"@).len() == 10);
    assert(("limit"@).len() == 5);
    crate::json::lemma_strlit_ne("sort_order"@, "limit"@);
    assert(("docs_accessed"@).len() == 13);
    assert(("docs_created"@).len() == 12);
    crate::json::lemma_strlit_ne("docs_accessed"@, "docs_created"@);
    assert(("accessed"@)[0] == 'a');
    assert(("modified"@)[0] == 'm');
    assert(("accessed"@).len() == 8);
    assert(("modified"@).len() == 8);
    crate::json::lemma_strlit_ne("accessed"@, "modified"@);
    assert(("accessed"@).len() == 8);
    assert(("created"@).len() == 7);
    crate::json::lemma_strlit_ne("accessed"@, "created"@);
    assert(("modified"@).len() == 8);
    assert(("created"@).len() == 7);
    crate::json::lemma_strlit_ne("modified"@, "created"@);
    assert(("ascending"@).len() == 9);
    assert(("descending"@).len() == 10);
    crate::json::lemma_strlit_ne("ascending"@, "descending"@);
    reveal_with_fuel(crate::json::obj_get, 10);
    assert(spec_list_paper_docs_args_from_json(j) == Some(a));
}

/// Law: the list continuation argument survives its wire round trip.
pub proof fn lemma_list_paper_docs_continue_args_round_trip(a: ListPaperDocsContinueArgsV)
    ensures
        spec_list_paper_docs_continue_args_from_json(spec_list_paper_docs_continue_args_json(a))
            == Some(a),
        parse_json(json_text(spec_list_paper_docs_continue_args_json(a))) == Some(
            spec_list_paper_docs_continue_args_json(a),
        ),
{
    let j = spec_list_paper_docs_continue_args_json(a);
    assert(wf_json(j)) by {
        lemma_wf_json_fields_all(j->Obj_0);
    }
    lemma_parse_json_text(j);
    assert(spec_list_paper_docs_continue_args_from_json(j) == Some(a));
}

/// Law: the sharing-policy argument survives its wire round trip.
pub proof fn lemma_sharing_policy_args_round_trip(doc_id: Seq<char>, policy: SharingPolicy)
    ensures
        spec_sharing_policy_args_from_json(spec_sharing_policy_args_json(doc_id, policy)) == Some(
            (doc_id, policy),
        ),
        parse_json(json_text(spec_sharing_policy_args_json(doc_id, policy))) == Some(
            spec_sharing_policy_args_json(doc_id, policy),
        ),
{
    let j = spec_sharing_policy_args_json(doc_id, policy);
    let fs = j->Obj_0;
    let inner = fs[1].1;
    assert(wf_json(j)) by {
        assert(wf_json(inner)) by {
            lemma_wf_json_fields_all(inner->Obj_0);
        }
        lemma_wf_json_fields_all(fs);
    }
    lemma_parse_json_text(j);
    reveal_strlit("doc_id");
    reveal_strlit("sharing_policy");
    reveal_strlit("public_sharing_policy");
    reveal_strlit("team_sharing_policy");
    reveal_strlit("people_with_link_can_edit");
    reveal_strlit("people_with_link_can_view_and_comment");
    reveal_strlit("invite_only");
    reveal_strlit("disabled");
    assert(("doc_id"@).len() == 6);
    assert(("sharing_policy"@).len() == 14);
    crate::json::lemma_strlit_ne("doc_id"@, "sharing_policy"@);
    assert(("public_sharing_policy"@).len() == 21);
    assert(("team_sharing_policy"@).len() == 19);
    crate::json::lemma_strlit_ne("public_sharing_policy"@, "team_sharing_policy"@);
    assert(("people_with_link_can_edit"@).len() == 25);
    assert(("people_with_link_can_view_and_comment"@).len() == 37);
    crate::json::lemma_strlit_ne("people_with_link_can_edit"@, "people_with_link_can_view_and_comment"@);
    assert(("people_with_link_can_edit"@).len() == 25);
    assert(("invite_only"@).len() == 11);
    crate::json::lemma_strlit_ne("people_with_link_can_edit"@, "invite_only"@);
    assert(("people_with_link_can_edit"@).len() == 25);
    assert(("disabled"@).len() == 8);
    crate::json::lemma_strlit_ne("people_with_link_can_edit"@, "disabled"@);
    assert(("people_with_link_can_view_and_comment"@).len() == 37);
    assert(("invite_only"@).len() == 11);
    crate::json::lemma_strlit_ne("people_with_link_can_view_and_comment"@, "invite_only"@);
    assert(("people_with_link_can_view_and_comment"@).len() == 37);
    assert(("disabled"@).len() == 8);
    crate::json::lemma_strlit_ne("people_with_link_can_view_and_comment"@, "disabled"@);
    assert(("invite_only"@).len() == 11);
    assert(("disabled"@).len() == 8);
    crate::json::lemma_strlit_ne("invite_only"@, "disabled"@);
    reveal_with_fuel(crate::json::obj_get, 10);
    assert(spec_sharing_policy_args_from_json(j) == Some((doc_id, policy)));
}

} // verus!
