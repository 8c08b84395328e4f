//! The user-facing pieces of a Paper doc: selecting members, adding and
//! removing them, and listing who can see a document.

use vstd::prelude::*;

use crate::json::{
    bool_field, e_bool_field, e_obj_get, e_str_field, e_tag_of, int_field, e_int_field,
    json_view, json_view_fields, json_view_seq, lemma_json_view_fields, lemma_json_view_seq,
    obj_get, str_eq, str_field, tag_of, Json, JsonV,
};
use super::{
    cursor_from_json, spec_cursor, spec_user_info, user_info_from_json, Cursor, CursorV, UserInfo,
    UserInfoV,
};

verus! {

broadcast use vstd::std_specs::vec::group_vec_axioms, vstd::seq::group_seq_axioms, vstd::string::group_string_axioms;

// ---------------------------------------------------------------------------
// Selecting a member.
// ---------------------------------------------------------------------------

/// A user identified by account id or by email.
#[derive(Debug)]
pub enum MemberSelector {
    DropboxId { dropbox_id: String },
    Email { email: String },
}

pub enum MemberSelectorV {
    DropboxId { dropbox_id: Seq<char> },
    Email { email: Seq<char> },
}

impl DeepView for MemberSelector {
    type V = MemberSelectorV;

    open spec fn deep_view(&self) -> MemberSelectorV {
        match self {
            MemberSelector::DropboxId { dropbox_id } => MemberSelectorV::DropboxId {
                dropbox_id: dropbox_id@,
            },
            MemberSelector::Email { email } => MemberSelectorV::Email { email: email@ },
        }
    }
}

impl Clone for MemberSelector {
    fn clone(&self) -> (r: Self)
        ensures
            r.deep_view() == self.deep_view(),
    {
        match self {
            MemberSelector::DropboxId { dropbox_id } => MemberSelector::DropboxId {
                dropbox_id: dropbox_id.clone(),
            },
            MemberSelector::Email { email } => MemberSelector::Email { email: email.clone() },
        }
    }
}

impl PartialEq for MemberSelector {
    fn eq(&self, other: &Self) -> (r: bool) {
        match (self, other) {
            (
                MemberSelector::DropboxId { dropbox_id: a },
                MemberSelector::DropboxId { dropbox_id: b },
            ) => str_eq(a.as_str(), b.as_str()),
            (MemberSelector::Email { email: a }, MemberSelector::Email { email: b }) => str_eq(
                a.as_str(),
                b.as_str(),
            ),
            _ => false,
        }
    }
}

impl vstd::std_specs::cmp::PartialEqSpecImpl for MemberSelector {
    open spec fn obeys_eq_spec() -> bool {
        true
    }

    open spec fn eq_spec(&self, other: &Self) -> bool {
        self.deep_view() == other.deep_view()
    }
}

impl Eq for MemberSelector {

}

/// A member selector on the wire is a tagged object carrying its one
/// field.
pub open spec fn spec_member_selector_json(m: MemberSelectorV) -> JsonV {
    match m {
        MemberSelectorV::DropboxId { dropbox_id } => JsonV::Obj(
            seq![(".tag"@, JsonV::Str("dropbox_id"@)), ("dropbox_id"@, JsonV::Str(dropbox_id))],
        ),
        MemberSelectorV::Email { email } => JsonV::Obj(
            seq![(".tag"@, JsonV::Str("email"@)), ("email"@, JsonV::Str(email))],
        ),
    }
}

pub fn member_selector_json(m: &MemberSelector) -> (r: Json)
    ensures
        r@ == spec_member_selector_json(m.deep_view()),
{
    let mut fields: Vec<(String, Json)> = Vec::new();
    match m {
        MemberSelector::DropboxId { dropbox_id } => {
            fields.push((".tag".to_owned(), Json::Str("dropbox_id".to_owned())));
            fields.push(("dropbox_id".to_owned(), Json::Str(dropbox_id.clone())));
        },
        MemberSelector::Email { email } => {
            fields.push((".tag".to_owned(), Json::Str("email".to_owned())));
            fields.push(("email".to_owned(), Json::Str(email.clone())));
        },
    }
    proof {
        lemma_json_view_fields(fields@);
        assert(json_view_fields(fields@) =~= spec_member_selector_json(m.deep_view())->Obj_0);
    }
    Json::Obj(fields)
}

pub open spec fn spec_member_selector_from_json(j: JsonV) -> Option<MemberSelectorV> {
    match j {
        JsonV::Obj(fields) => match tag_of(j) {
            Some(t) => {
                if t == "dropbox_id"@ {
                    match str_field(fields, "dropbox_id"@) {
                        Some(d) => Some(MemberSelectorV::DropboxId { dropbox_id: d }),
                        None => None,
                    }
                } else if t == "email"@ {
                    match str_field(fields, "email"@) {
                        Some(e) => Some(MemberSelectorV::Email { email: e }),
                        None => None,
                    }
                } else {
                    None
                }
            },
            None => None,
        },
        _ => None,
    }
}

pub fn member_selector_from_json(j: &Json) -> (r: Option<MemberSelector>)
    ensures
        r.deep_view() == spec_member_selector_from_json(j@),
{
    match j {
        Json::Obj(fields) => match e_tag_of(j) {
            Some(t) => {
                if str_eq(t.as_str(), "dropbox_id") {
                    match e_str_field(fields, "dropbox_id") {
                        Some(d) => Some(MemberSelector::DropboxId { dropbox_id: d }),
                        None => None,
                    }
                } else if str_eq(t.as_str(), "email") {
                    match e_str_field(fields, "email") {
                        Some(e) => Some(MemberSelector::Email { email: e }),
                        None => None,
                    }
                } else {
                    None
                }
            },
            None => None,
        },
        _ => None,
    }
}

/// What a member may do on the document.
#[derive(PartialEq, Eq, Debug, Copy, Clone, Structural)]
pub enum PaperDocPermissionLevel {
    Edit,
    ViewAndComment,
}

impl DeepView for PaperDocPermissionLevel {
    type V = PaperDocPermissionLevel;

    open spec fn deep_view(&self) -> PaperDocPermissionLevel {
        *self
    }
}

/// The wire name of a permission level; sent as a plain string, received
/// as a tagged object.
pub open spec fn spec_permission_level_str(p: PaperDocPermissionLevel) -> Seq<char> {
    match p {
        PaperDocPermissionLevel::Edit => "edit"@,
        PaperDocPermissionLevel::ViewAndComment => "view_and_comment"@,
    }
}

pub fn permission_level_str(p: &PaperDocPermissionLevel) -> (r: &'static str)
    ensures
        r@ == spec_permission_level_str(*p),
{
    match p {
        PaperDocPermissionLevel::Edit => "edit",
        PaperDocPermissionLevel::ViewAndComment => "view_and_comment",
    }
}

pub open spec fn spec_permission_level(j: JsonV) -> Option<PaperDocPermissionLevel> {
    match tag_of(j) {
        Some(t) => {
            if t == "edit"@ {
                Some(PaperDocPermissionLevel::Edit)
            } else if t == "view_and_comment"@ {
                Some(PaperDocPermissionLevel::ViewAndComment)
            } else {
                None
            }
        },
        None => None,
    }
}

pub fn permission_level_from_json(j: &Json) -> (r: Option<PaperDocPermissionLevel>)
    ensures
        r == spec_permission_level(j@),
{
    match e_tag_of(j) {
        Some(t) => {
            if str_eq(t.as_str(), "edit") {
                Some(PaperDocPermissionLevel::Edit)
            } else if str_eq(t.as_str(), "view_and_comment") {
                Some(PaperDocPermissionLevel::ViewAndComment)
            } else {
                None
            }
        },
        None => None,
    }
}

// ---------------------------------------------------------------------------
// Adding members.
// ---------------------------------------------------------------------------

/// One member to add, with the permission to grant.
#[derive(Debug)]
pub struct AddMember {
    pub member: MemberSelector,
    pub permission_level: PaperDocPermissionLevel,
}

pub struct AddMemberV {
    pub member: MemberSelectorV,
    pub permission_level: PaperDocPermissionLevel,
}

impl DeepView for AddMember {
    type V = AddMemberV;

    open spec fn deep_view(&self) -> AddMemberV {
        AddMemberV {
            member: self.member.deep_view(),
            permission_level: self.permission_level,
        }
    }
}

impl Clone for AddMember {
    fn clone(&self) -> (r: Self)
        ensures
            r.deep_view() == self.deep_view(),
    {
        AddMember { member: self.member.clone(), permission_level: self.permission_level }
    }
}

pub open spec fn spec_add_member_json(m: AddMemberV) -> JsonV {
    JsonV::Obj(
        seq![
            ("member"@, spec_member_selector_json(m.member)),
            ("permission_level"@, JsonV::Str(spec_permission_level_str(m.permission_level))),
        ],
    )
}

pub fn add_member_json(m: &AddMember) -> (r: Json)
    ensures
        r@ == spec_add_member_json(m.deep_view()),
{
    let mut fields: Vec<(String, Json)> = Vec::new();
    fields.push(("member".to_owned(), member_selector_json(&m.member)));
    fields.push(
        ("permission_level".to_owned(), Json::Str(permission_level_str(&m.permission_level).to_owned())),
    );
    proof {
        lemma_json_view_fields(fields@);
        assert(json_view_fields(fields@) =~= spec_add_member_json(m.deep_view())->Obj_0);
    }
    Json::Obj(fields)
}

pub open spec fn spec_add_member_from_json(j: JsonV) -> Option<AddMemberV> {
    match j {
        JsonV::Obj(fields) => {
            let m = match obj_get(fields, "member"@) {
                Some(mj) => spec_member_selector_from_json(mj),
                None => None,
            };
            let p = match obj_get(fields, "permission_level"@) {
                Some(JsonV::Str(s)) => {
                    if s == "edit"@ {
                        Some(PaperDocPermissionLevel::Edit)
                    } else if s == "view_and_comment"@ {
                        Some(PaperDocPermissionLevel::ViewAndComment)
                    } else {
                        None
                    }
                },
                _ => None,
            };
            match (m, p) {
                (Some(member), Some(permission_level)) => Some(
                    AddMemberV { member, permission_level },
                ),
                _ => None,
            }
        },
        _ => None,
    }
}

pub fn add_member_from_json(j: &Json) -> (r: Option<AddMember>)
    ensures
        r.deep_view() == spec_add_member_from_json(j@),
{
    match j {
        Json::Obj(fields) => {
            let m = match e_obj_get(fields, "member") {
                Some(mj) => member_selector_from_json(mj),
                None => None,
            };
            let p: Option<PaperDocPermissionLevel> = match e_obj_get(fields, "permission_level") {
                Some(Json::Str(s)) => {
                    if str_eq(s.as_str(), "edit") {
                        Some(PaperDocPermissionLevel::Edit)
                    } else if str_eq(s.as_str(), "view_and_comment") {
                        Some(PaperDocPermissionLevel::ViewAndComment)
                    } else {
                        None
                    }
                },
                _ => None,
            };
            match (m, p) {
                (Some(member), Some(permission_level)) => Some(
                    AddMember { member, permission_level },
                ),
                _ => None,
            }
        },
        _ => None,
    }
}

pub open spec fn spec_add_member_list_json(ms: Seq<AddMemberV>) -> Seq<JsonV> {
    Seq::new(ms.len(), |i: int| spec_add_member_json(ms[i]))
}

fn add_member_list_json(ms: &Vec<AddMember>) -> (r: Vec<Json>)
    ensures
        json_view_seq(r@) == spec_add_member_list_json(ms.deep_view()),
{
    let n = ms.len();
    let mut out: Vec<Json> = Vec::new();
    let mut i: usize = 0;
    while i < n
        invariant
            i <= n,
            n == ms@.len(),
            out@.len() == i,
            forall|k: int|
                0 <= k < i ==> json_view(#[trigger] out@[k]) == spec_add_member_json(
                    ms@[k].deep_view(),
                ),
        decreases n - i,
    {
        let mj = add_member_json(&ms[i]);
        out.push(mj);
        i = i + 1;
    }
    proof {
        lemma_json_view_seq(out@);
        assert(json_view_seq(out@) =~= spec_add_member_list_json(ms.deep_view()));
    }
    out
}

pub open spec fn spec_add_member_list_from_json(elems: Seq<JsonV>) -> Option<Seq<AddMemberV>>
    decreases elems.len(),
{
    if elems.len() == 0 {
        Some(Seq::empty())
    } else {
        match spec_add_member_from_json(elems[0]) {
            Some(x) => match spec_add_member_list_from_json(
                elems.subrange(1, elems.len() as int),
            ) {
                Some(rest) => Some(seq![x] + rest),
                None => None,
            },
            None => None,
        }
    }
}

fn add_member_list_from(v: &Vec<Json>, i: usize) -> (r: Option<Vec<AddMember>>)
    requires
        i <= v@.len(),
    ensures
        r.deep_view() == spec_add_member_list_from_json(
            json_view_seq(v@).subrange(i as int, v@.len() as int),
        ),
    decreases v@.len() - i,
{
    proof {
        lemma_json_view_seq(v@);
    }
    let n = v.len();
    let ghost tail = json_view_seq(v@).subrange(i as int, v@.len() as int);
    if i >= n {
        let out: Vec<AddMember> = Vec::new();
        proof {
            assert(tail =~= Seq::<JsonV>::empty());
            assert(out.deep_view() =~= Seq::<AddMemberV>::empty());
        }
        return Some(out);
    }
    proof {
        assert(tail[0] == json_view(v@[i as int]));
        assert(tail.subrange(1, tail.len() as int) =~= json_view_seq(v@).subrange(
            i as int + 1,
            v@.len() as int,
        ));
    }
    match add_member_from_json(&v[i]) {
        None => None,
        Some(x) => match add_member_list_from(v, i + 1) {
            None => None,
            Some(rest) => {
                let ghost gx = x.deep_view();
                let ghost grest = rest.deep_view();
                let mut out = rest;
                out.insert(0, x);
                proof {
                    assert(out.deep_view() =~= seq![gx] + grest);
                }
                Some(out)
            },
        },
    }
}

pub fn add_member_list_from_json(j: &Json) -> (r: Option<Vec<AddMember>>)
    ensures
        match j@ {
            JsonV::Arr(elems) => r.deep_view() == spec_add_member_list_from_json(elems),
            _ => r is None,
        },
{
    match j {
        Json::Arr(elems) => {
            proof {
                lemma_json_view_seq(elems@);
                assert(json_view_seq(elems@).subrange(0, elems@.len() as int) =~= json_view_seq(
                    elems@,
                ));
            }
            add_member_list_from(elems, 0)
        },
        _ => None,
    }
}

/// The `users/add` argument.
#[derive(Debug)]
pub struct AddPaperDocUser {
    pub doc_id: String,
    pub members: Vec<AddMember>,
    pub custom_message: Option<String>,
    pub quiet: bool,
}

pub struct AddPaperDocUserV {
    pub doc_id: Seq<char>,
    pub members: Seq<AddMemberV>,
    pub custom_message: Option<Seq<char>>,
    pub quiet: bool,
}

impl DeepView for AddPaperDocUser {
    type V = AddPaperDocUserV;

    open spec fn deep_view(&self) -> AddPaperDocUserV {
        AddPaperDocUserV {
            doc_id: self.doc_id@,
            members: self.members.deep_view(),
            custom_message: self.custom_message.deep_view(),
            quiet: self.quiet,
        }
    }
}

/// The argument object on the wire; an absent message is omitted.
pub open spec fn spec_add_paper_doc_user_json(a: AddPaperDocUserV) -> JsonV {
    JsonV::Obj(
        seq![
            ("doc_id"@, JsonV::Str(a.doc_id)),
            ("members"@, JsonV::Arr(spec_add_member_list_json(a.members))),
        ] + (match a.custom_message {
            Some(m) => seq![("custom_message"@, JsonV::Str(m))],
            None => Seq::empty(),
        }) + seq![("quiet"@, JsonV::Bool(a.quiet))],
    )
}

pub fn add_paper_doc_user_json(a: &AddPaperDocUser) -> (r: Json)
    ensures
        r@ == spec_add_paper_doc_user_json(a.deep_view()),
{
    let mut fields: Vec<(String, Json)> = Vec::new();
    fields.push(("doc_id".to_owned(), Json::Str(a.doc_id.clone())));
    fields.push(("members".to_owned(), Json::Arr(add_member_list_json(&a.members))));
    match &a.custom_message {
        Some(m) => fields.push(("custom_message".to_owned(), Json::Str(m.clone()))),
        None => (),
    }
    fields.push(("quiet".to_owned(), Json::Bool(a.quiet)));
    proof {
        lemma_json_view_fields(fields@);
        assert(json_view_fields(fields@) =~= spec_add_paper_doc_user_json(a.deep_view())->Obj_0);
    }
    Json::Obj(fields)
}

pub open spec fn spec_add_paper_doc_user_from_json(j: JsonV) -> Option<AddPaperDocUserV> {
    match j {
        JsonV::Obj(fields) => {
            let ms = match obj_get(fields, "members"@) {
                Some(JsonV::Arr(elems)) => spec_add_member_list_from_json(elems),
                _ => None,
            };
            match (
                str_field(fields, "doc_id"@),
                ms,
                crate::json::opt_str_field(fields, "custom_message"@),
                bool_field(fields, "quiet"@),
            ) {
                (Some(doc_id), Some(members), Some(custom_message), Some(quiet)) => Some(
                    AddPaperDocUserV { doc_id, members, custom_message, quiet },
                ),
                _ => None,
            }
        },
        _ => None,
    }
}

pub fn add_paper_doc_user_from_json(j: &Json) -> (r: Option<AddPaperDocUser>)
    ensures
        r.deep_view() == spec_add_paper_doc_user_from_json(j@),
{
    match j {
        Json::Obj(fields) => {
            let ms = match e_obj_get(fields, "members") {
                Some(a) => add_member_list_from_json(a),
                None => None,
            };
            match (
                e_str_field(fields, "doc_id"),
                ms,
                crate::json::e_opt_str_field(fields, "custom_message"),
                e_bool_field(fields, "quiet"),
            ) {
                (Some(doc_id), Some(members), Some(custom_message), Some(quiet)) => Some(
                    AddPaperDocUser { doc_id, members, custom_message, quiet },
                ),
                _ => None,
            }
        },
        _ => None,
    }
}

/// The per-member outcome of `users/add`.
#[derive(PartialEq, Eq, Debug, Copy, Clone, Structural)]
pub enum AddPaperDocUserResult {
    Success,
    UnknownError,
    SharingOutsideTeamDisabled,
    DailyLimitReached,
    UserIsOwner,
    FailedUserDataRetrieval,
    PermissionAlreadyGranted,
}

impl DeepView for AddPaperDocUserResult {
    type V = AddPaperDocUserResult;

    open spec fn deep_view(&self) -> AddPaperDocUserResult {
        *self
    }
}

pub open spec fn spec_add_user_result(j: JsonV) -> Option<AddPaperDocUserResult> {
    match tag_of(j) {
        Some(t) => {
            if t == "success"@ {
                Some(AddPaperDocUserResult::Success)
            } else if t == "unknown_error"@ {
                Some(AddPaperDocUserResult::UnknownError)
            } else if t == "sharing_outside_team_disabled"@ {
                Some(AddPaperDocUserResult::SharingOutsideTeamDisabled)
            } else if t == "daily_limit_reached"@ {
                Some(AddPaperDocUserResult::DailyLimitReached)
            } else if t == "user_is_owner"@ {
                Some(AddPaperDocUserResult::UserIsOwner)
            } else if t == "failed_user_data_retrieval"@ {
                Some(AddPaperDocUserResult::FailedUserDataRetrieval)
            } else if t == "permission_already_granted"@ {
                Some(AddPaperDocUserResult::PermissionAlreadyGranted)
            } else {
                None
            }
        },
        None => None,
    }
}

pub fn add_user_result_from_json(j: &Json) -> (r: Option<AddPaperDocUserResult>)
    ensures
        r == spec_add_user_result(j@),
{
    match e_tag_of(j) {
        Some(t) => {
            if str_eq(t.as_str(), "success") {
                Some(AddPaperDocUserResult::Success)
            } else if str_eq(t.as_str(), "unknown_error") {
                Some(AddPaperDocUserResult::UnknownError)
            } else if str_eq(t.as_str(), "sharing_outside_team_disabled") {
                Some(AddPaperDocUserResult::SharingOutsideTeamDisabled)
            } else if str_eq(t.as_str(), "daily_limit_reached") {
                Some(AddPaperDocUserResult::DailyLimitReached)
            } else if str_eq(t.as_str(), "user_is_owner") {
                Some(AddPaperDocUserResult::UserIsOwner)
            } else if str_eq(t.as_str(), "failed_user_data_retrieval") {
                Some(AddPaperDocUserResult::FailedUserDataRetrieval)
            } else if str_eq(t.as_str(), "permission_already_granted") {
                Some(AddPaperDocUserResult::PermissionAlreadyGranted)
            } else {
                None
            }
        },
        None => None,
    }
}

/// The outcome for one requested member.
#[derive(Debug)]
pub struct AddPaperDocUserMemberResult {
    pub member: MemberSelector,
    pub result: AddPaperDocUserResult,
}

pub struct AddPaperDocUserMemberResultV {
    pub member: MemberSelectorV,
    pub result: AddPaperDocUserResult,
}

impl DeepView for AddPaperDocUserMemberResult {
    type V = AddPaperDocUserMemberResultV;

    open spec fn deep_view(&self) -> AddPaperDocUserMemberResultV {
        AddPaperDocUserMemberResultV {
            member: self.member.deep_view(),
            result: self.result,
        }
    }
}

pub open spec fn spec_add_user_member_result(j: JsonV) -> Option<AddPaperDocUserMemberResultV> {
    match j {
        JsonV::Obj(fields) => {
            let m = match obj_get(fields, "member"@) {
                Some(mj) => spec_member_selector_from_json(mj),
                None => None,
            };
            let res = match obj_get(fields, "result"@) {
                Some(rj) => spec_add_user_result(rj),
                None => None,
            };
            match (m, res) {
                (Some(member), Some(result)) => Some(
                    AddPaperDocUserMemberResultV { member, result },
                ),
                _ => None,
            }
        },
        _ => None,
    }
}

pub fn add_user_member_result_from_json(j: &Json) -> (r: Option<AddPaperDocUserMemberResult>)
    ensures
        r.deep_view() == spec_add_user_member_result(j@),
{
    match j {
        Json::Obj(fields) => {
            let m = match e_obj_get(fields, "member") {
                Some(mj) => member_selector_from_json(mj),
                None => None,
            };
            let res = match e_obj_get(fields, "result") {
                Some(rj) => add_user_result_from_json(rj),
                None => None,
            };
            match (m, res) {
                (Some(member), Some(result)) => Some(AddPaperDocUserMemberResult { member, result }),
                _ => None,
            }
        },
        _ => None,
    }
}

pub open spec fn spec_add_user_member_result_list(elems: Seq<JsonV>) -> Option<
    Seq<AddPaperDocUserMemberResultV>,
>
    decreases elems.len(),
{
    if elems.len() == 0 {
        Some(Seq::empty())
    } else {
        match spec_add_user_member_result(elems[0]) {
            Some(x) => match spec_add_user_member_result_list(
                elems.subrange(1, elems.len() as int),
            ) {
                Some(rest) => Some(seq![x] + rest),
                None => None,
            },
            None => None,
        }
    }
}

fn add_user_member_result_list_from(v: &Vec<Json>, i: usize) -> (r: Option<
    Vec<AddPaperDocUserMemberResult>,
>)
    requires
        i <= v@.len(),
    ensures
        r.deep_view() == spec_add_user_member_result_list(
            json_view_seq(v@).subrange(i as int, v@.len() as int),
        ),
    decreases v@.len() - i,
{
    proof {
        lemma_json_view_seq(v@);
    }
    let n = v.len();
    let ghost tail = json_view_seq(v@).subrange(i as int, v@.len() as int);
    if i >= n {
        let out: Vec<AddPaperDocUserMemberResult> = Vec::new();
        proof {
            assert(tail =~= Seq::<JsonV>::empty());
            assert(out.deep_view() =~= Seq::<AddPaperDocUserMemberResultV>::empty());
        }
        return Some(out);
    }
    proof {
        assert(tail[0] == json_view(v@[i as int]));
        assert(tail.subrange(1, tail.len() as int) =~= json_view_seq(v@).subrange(
            i as int + 1,
            v@.len() as int,
        ));
    }
    match add_user_member_result_from_json(&v[i]) {
        None => None,
        Some(x) => match add_user_member_result_list_from(v, i + 1) {
            None => None,
            Some(rest) => {
                let ghost gx = x.deep_view();
                let ghost grest = rest.deep_view();
                let mut out = rest;
                out.insert(0, x);
                proof {
                    assert(out.deep_view() =~= seq![gx] + grest);
                }
                Some(out)
            },
        },
    }
}

pub fn add_user_member_result_list_from_json(j: &Json) -> (r: Option<
    Vec<AddPaperDocUserMemberResult>,
>)
    ensures
        match j@ {
            JsonV::Arr(elems) => r.deep_view() == spec_add_user_member_result_list(elems),
            _ => r is None,
        },
{
    match j {
        Json::Arr(elems) => {
            proof {
                lemma_json_view_seq(elems@);
                assert(json_view_seq(elems@).subrange(0, elems@.len() as int) =~= json_view_seq(
                    elems@,
                ));
            }
            add_user_member_result_list_from(elems, 0)
        },
        _ => None,
    }
}

} // verus!

verus! {

// ---------------------------------------------------------------------------
// The builder that accumulates an add-users request.  Construction is pure;
// the finished argument object is handed to the caller to send.
// ---------------------------------------------------------------------------

/// Accumulates members, the optional message and the quiet flag before the
/// request is built.
#[derive(Debug)]
pub struct AddPaperDocUserRequestBuilder {
    pub access_token: String,
    pub doc_id: String,
    pub members: Vec<AddMember>,
    pub custom_message: Option<String>,
    pub quiet: bool,
}

impl crate::http::HasAccessToken for AddPaperDocUserRequestBuilder {
    open spec fn spec_token(&self) -> Seq<char> {
        self.access_token@
    }

    fn access_token(&self) -> &str {
        self.access_token.as_str()
    }
}

impl AddPaperDocUserRequestBuilder {
    /// Starts a request for the given document on behalf of the client the
    /// builder was made from.
    pub fn new<T: crate::http::HasAccessToken>(client: &T, doc_id: &str) -> (r:
        AddPaperDocUserRequestBuilder)
        ensures
            r.access_token@ == client.spec_token(),
            r.doc_id@ == doc_id@,
            r.members.deep_view() == Seq::<AddMemberV>::empty(),
            r.custom_message is None,
            r.quiet == false,
    {
        let r = AddPaperDocUserRequestBuilder {
            access_token: client.access_token().to_owned(),
            doc_id: doc_id.to_owned(),
            members: Vec::new(),
            custom_message: None,
            quiet: false,
        };
        proof {
            assert(r.members.deep_view() =~= Seq::<AddMemberV>::empty());
        }
        r
    }

    /// Adds one member with the permission to grant.
    pub fn add_member(
        self,
        member: &MemberSelector,
        permission_level: &PaperDocPermissionLevel,
    ) -> (r: AddPaperDocUserRequestBuilder)
        ensures
            r.access_token@ == self.access_token@,
            r.doc_id@ == self.doc_id@,
            r.members.deep_view() == self.members.deep_view().push(
                AddMemberV {
                    member: member.deep_view(),
                    permission_level: *permission_level,
                },
            ),
            r.custom_message.deep_view() == self.custom_message.deep_view(),
            r.quiet == self.quiet,
    {
        let ghost gm = self.members.deep_view();
        let mut members = self.members;
        members.push(AddMember { member: member.clone(), permission_level: *permission_level });
        let r = AddPaperDocUserRequestBuilder {
            access_token: self.access_token,
            doc_id: self.doc_id,
            members,
            custom_message: self.custom_message,
            quiet: self.quiet,
        };
        proof {
            assert(r.members.deep_view() =~= gm.push(
                AddMemberV { member: member.deep_view(), permission_level: *permission_level },
            ));
        }
        r
    }

    /// Sets whether the added users are notified.
    pub fn quiet(self, quiet: bool) -> (r: AddPaperDocUserRequestBuilder)
        ensures
            r == (AddPaperDocUserRequestBuilder { quiet, ..self }),
    {
        AddPaperDocUserRequestBuilder { quiet, ..self }
    }

    /// Sets the message sent along with the invitation.
    pub fn custom_message(self, custom_message: &str) -> (r: AddPaperDocUserRequestBuilder)
        ensures
            r.access_token@ == self.access_token@,
            r.doc_id@ == self.doc_id@,
            r.members == self.members,
            r.custom_message matches Some(m) && m@ == custom_message@,
            r.quiet == self.quiet,
    {
        AddPaperDocUserRequestBuilder { custom_message: Some(custom_message.to_owned()), ..self }
    }

    /// The accumulated argument object.
    pub fn build(&self) -> (r: AddPaperDocUser)
        ensures
            r.deep_view() == (AddPaperDocUserV {
                doc_id: self.doc_id@,
                members: self.members.deep_view(),
                custom_message: self.custom_message.deep_view(),
                quiet: self.quiet,
            }),
    {
        let mut members: Vec<AddMember> = Vec::new();
        let n = self.members.len();
        let mut i: usize = 0;
        while i < n
            invariant
                i <= n,
                n == self.members@.len(),
                members@.len() == i,
                forall|k: int|
                    0 <= k < i ==> (#[trigger] members@[k]).deep_view()
                        == self.members@[k].deep_view(),
            decreases n - i,
        {
            members.push(self.members[i].clone());
            i = i + 1;
        }
        let custom_message = match &self.custom_message {
            Some(m) => Some(m.clone()),
            None => None,
        };
        let r = AddPaperDocUser {
            doc_id: self.doc_id.clone(),
            members,
            custom_message,
            quiet: self.quiet,
        };
        proof {
            assert(r.members.deep_view() =~= self.members.deep_view());
        }
        r
    }
}

// ---------------------------------------------------------------------------
// Listing the users on a document.
// ---------------------------------------------------------------------------

#[derive(PartialEq, Eq, Debug, Copy, Clone, Structural)]
pub enum UserOnPaperDocFilter {
    Visited,
    Shared,
}

impl DeepView for UserOnPaperDocFilter {
    type V = UserOnPaperDocFilter;

    open spec fn deep_view(&self) -> UserOnPaperDocFilter {
        *self
    }
}

pub open spec fn spec_user_filter_str(f: UserOnPaperDocFilter) -> Seq<char> {
    match f {
        UserOnPaperDocFilter::Visited => "visited"@,
        UserOnPaperDocFilter::Shared => "shared"@,
    }
}

pub fn user_filter_str(f: &UserOnPaperDocFilter) -> (r: &'static str)
    ensures
        r@ == spec_user_filter_str(*f),
{
    match f {
        UserOnPaperDocFilter::Visited => "visited",
        UserOnPaperDocFilter::Shared => "shared",
    }
}

#[derive(Debug)]
pub struct ListUsersOnPaperDocArgs {
    pub doc_id: String,
    pub limit: i32,
    pub filter_by: UserOnPaperDocFilter,
}

pub struct ListUsersOnPaperDocArgsV {
    pub doc_id: Seq<char>,
    pub limit: int,
    pub filter_by: UserOnPaperDocFilter,
}

impl DeepView for ListUsersOnPaperDocArgs {
    type V = ListUsersOnPaperDocArgsV;

    open spec fn deep_view(&self) -> ListUsersOnPaperDocArgsV {
        ListUsersOnPaperDocArgsV {
            doc_id: self.doc_id@,
            limit: self.limit as int,
            filter_by: self.filter_by,
        }
    }
}

pub open spec fn spec_list_users_args_json(a: ListUsersOnPaperDocArgsV) -> JsonV {
    JsonV::Obj(
        seq![
            ("doc_id"@, JsonV::Str(a.doc_id)),
            ("limit"@, JsonV::Int(a.limit)),
            ("filter_by"@, JsonV::Str(spec_user_filter_str(a.filter_by))),
        ],
    )
}

pub fn list_users_args_json(a: &ListUsersOnPaperDocArgs) -> (r: Json)
    ensures
        r@ == spec_list_users_args_json(a.deep_view()),
{
    let mut fields: Vec<(String, Json)> = Vec::new();
    fields.push(("doc_id".to_owned(), Json::Str(a.doc_id.clone())));
    fields.push(("limit".to_owned(), Json::Int(a.limit as i64)));
    fields.push(("filter_by".to_owned(), Json::Str(user_filter_str(&a.filter_by).to_owned())));
    proof {
        lemma_json_view_fields(fields@);
        assert(json_view_fields(fields@) =~= spec_list_users_args_json(a.deep_view())->Obj_0);
    }
    Json::Obj(fields)
}

/// An invitee together with the granted permission.
#[derive(Debug)]
pub struct InviteeInfoWithPermissionLevel {
    pub invitee: super::InviteeInfo,
    pub permission_level: PaperDocPermissionLevel,
}

pub struct InviteeInfoWithPermissionLevelV {
    pub invitee: super::InviteeInfoV,
    pub permission_level: PaperDocPermissionLevel,
}

impl DeepView for InviteeInfoWithPermissionLevel {
    type V = InviteeInfoWithPermissionLevelV;

    open spec fn deep_view(&self) -> InviteeInfoWithPermissionLevelV {
        InviteeInfoWithPermissionLevelV {
            invitee: self.invitee.deep_view(),
            permission_level: self.permission_level,
        }
    }
}

pub open spec fn spec_invitee_wpl(j: JsonV) -> Option<InviteeInfoWithPermissionLevelV> {
    match j {
        JsonV::Obj(fields) => {
            let inv = match obj_get(fields, "invitee"@) {
                Some(ij) => super::spec_invitee_info(ij),
                None => None,
            };
            let p = match obj_get(fields, "permission_level"@) {
                Some(pj) => spec_permission_level(pj),
                None => None,
            };
            match (inv, p) {
                (Some(invitee), Some(permission_level)) => Some(
                    InviteeInfoWithPermissionLevelV { invitee, permission_level },
                ),
                _ => None,
            }
        },
        _ => None,
    }
}

pub fn invitee_wpl_from_json(j: &Json) -> (r: Option<InviteeInfoWithPermissionLevel>)
    ensures
        r.deep_view() == spec_invitee_wpl(j@),
{
    match j {
        Json::Obj(fields) => {
            let inv = match e_obj_get(fields, "invitee") {
                Some(ij) => super::invitee_info_from_json(ij),
                None => None,
            };
            let p = match e_obj_get(fields, "permission_level") {
                Some(pj) => permission_level_from_json(pj),
                None => None,
            };
            match (inv, p) {
                (Some(invitee), Some(permission_level)) => Some(
                    InviteeInfoWithPermissionLevel { invitee, permission_level },
                ),
                _ => None,
            }
        },
        _ => None,
    }
}

/// A user together with the granted permission.
#[derive(Debug)]
pub struct UserInfoWithPermissionLevel {
    pub user: UserInfo,
    pub permission_level: PaperDocPermissionLevel,
}

pub struct UserInfoWithPermissionLevelV {
    pub user: UserInfoV,
    pub permission_level: PaperDocPermissionLevel,
}

impl DeepView for UserInfoWithPermissionLevel {
    type V = UserInfoWithPermissionLevelV;

    open spec fn deep_view(&self) -> UserInfoWithPermissionLevelV {
        UserInfoWithPermissionLevelV {
            user: self.user.deep_view(),
            permission_level: self.permission_level,
        }
    }
}

pub open spec fn spec_user_wpl(j: JsonV) -> Option<UserInfoWithPermissionLevelV> {
    match j {
        JsonV::Obj(fields) => {
            let u = match obj_get(fields, "user"@) {
                Some(uj) => spec_user_info(uj),
                None => None,
            };
            let p = match obj_get(fields, "permission_level"@) {
                Some(pj) => spec_permission_level(pj),
                None => None,
            };
            match (u, p) {
                (Some(user), Some(permission_level)) => Some(
                    UserInfoWithPermissionLevelV { user, permission_level },
                ),
                _ => None,
            }
        },
        _ => None,
    }
}

pub fn user_wpl_from_json(j: &Json) -> (r: Option<UserInfoWithPermissionLevel>)
    ensures
        r.deep_view() == spec_user_wpl(j@),
{
    match j {
        Json::Obj(fields) => {
            let u = match e_obj_get(fields, "user") {
                Some(uj) => user_info_from_json(uj),
                None => None,
            };
            let p = match e_obj_get(fields, "permission_level") {
                Some(pj) => permission_level_from_json(pj),
                None => None,
            };
            match (u, p) {
                (Some(user), Some(permission_level)) => Some(
                    UserInfoWithPermissionLevel { user, permission_level },
                ),
                _ => None,
            }
        },
        _ => None,
    }
}

pub open spec fn spec_invitee_wpl_list(elems: Seq<JsonV>) -> Option<
    Seq<InviteeInfoWithPermissionLevelV>,
>
    decreases elems.len(),
{
    if elems.len() == 0 {
        Some(Seq::empty())
    } else {
        match spec_invitee_wpl(elems[0]) {
            Some(x) => match spec_invitee_wpl_list(elems.subrange(1, elems.len() as int)) {
                Some(rest) => Some(seq![x] + rest),
                None => None,
            },
            None => None,
        }
    }
}

fn invitee_wpl_list_from(v: &Vec<Json>, i: usize) -> (r: Option<
    Vec<InviteeInfoWithPermissionLevel>,
>)
    requires
        i <= v@.len(),
    ensures
        r.deep_view() == spec_invitee_wpl_list(
            json_view_seq(v@).subrange(i as int, v@.len() as int),
        ),
    decreases v@.len() - i,
{
    proof {
        lemma_json_view_seq(v@);
    }
    let n = v.len();
    let ghost tail = json_view_seq(v@).subrange(i as int, v@.len() as int);
    if i >= n {
        let out: Vec<InviteeInfoWithPermissionLevel> = Vec::new();
        proof {
            assert(tail =~= Seq::<JsonV>::empty());
            assert(out.deep_view() =~= Seq::<InviteeInfoWithPermissionLevelV>::empty());
        }
        return Some(out);
    }
    proof {
        assert(tail[0] == json_view(v@[i as int]));
        assert(tail.subrange(1, tail.len() as int) =~= json_view_seq(v@).subrange(
            i as int + 1,
            v@.len() as int,
        ));
    }
    match invitee_wpl_from_json(&v[i]) {
        None => None,
        Some(x) => match invitee_wpl_list_from(v, i + 1) {
            None => None,
            Some(rest) => {
                let ghost gx = x.deep_view();
                let ghost grest = rest.deep_view();
                let mut out = rest;
                out.insert(0, x);
                proof {
                    assert(out.deep_view() =~= seq![gx] + grest);
                }
                Some(out)
            },
        },
    }
}

pub open spec fn spec_user_wpl_list(elems: Seq<JsonV>) -> Option<Seq<UserInfoWithPermissionLevelV>>
    decreases elems.len(),
{
    if elems.len() == 0 {
        Some(Seq::empty())
    } else {
        match spec_user_wpl(elems[0]) {
            Some(x) => match spec_user_wpl_list(elems.subrange(1, elems.len() as int)) {
                Some(rest) => Some(seq![x] + rest),
                None => None,
            },
            None => None,
        }
    }
}

fn user_wpl_list_from(v: &Vec<Json>, i: usize) -> (r: Option<Vec<UserInfoWithPermissionLevel>>)
    requires
        i <= v@.len(),
    ensures
        r.deep_view() == spec_user_wpl_list(json_view_seq(v@).subrange(i as int, v@.len() as int)),
    decreases v@.len() - i,
{
    proof {
        lemma_json_view_seq(v@);
    }
    let n = v.len();
    let ghost tail = json_view_seq(v@).subrange(i as int, v@.len() as int);
    if i >= n {
        let out: Vec<UserInfoWithPermissionLevel> = Vec::new();
        proof {
            assert(tail =~= Seq::<JsonV>::empty());
            assert(out.deep_view() =~= Seq::<UserInfoWithPermissionLevelV>::empty());
        }
        return Some(out);
    }
    proof {
        assert(tail[0] == json_view(v@[i as int]));
        assert(tail.subrange(1, tail.len() as int) =~= json_view_seq(v@).subrange(
            i as int + 1,
            v@.len() as int,
        ));
    }
    match user_wpl_from_json(&v[i]) {
        None => None,
        Some(x) => match user_wpl_list_from(v, i + 1) {
            None => None,
            Some(rest) => {
                let ghost gx = x.deep_view();
                let ghost grest = rest.deep_view();
                let mut out = rest;
                out.insert(0, x);
                proof {
                    assert(out.deep_view() =~= seq![gx] + grest);
                }
                Some(out)
            },
        },
    }
}

/// What `users/list` and its continuation return.
#[derive(Debug)]
pub struct ListUsersOnPaperDocResponse {
    pub invitees: Vec<InviteeInfoWithPermissionLevel>,
    pub users: Vec<UserInfoWithPermissionLevel>,
    pub doc_owner: UserInfo,
    pub cursor: Cursor,
    pub has_more: bool,
}

pub struct ListUsersOnPaperDocResponseV {
    pub invitees: Seq<InviteeInfoWithPermissionLevelV>,
    pub users: Seq<UserInfoWithPermissionLevelV>,
    pub doc_owner: UserInfoV,
    pub cursor: CursorV,
    pub has_more: bool,
}

impl DeepView for ListUsersOnPaperDocResponse {
    type V = ListUsersOnPaperDocResponseV;

    open spec fn deep_view(&self) -> ListUsersOnPaperDocResponseV {
        ListUsersOnPaperDocResponseV {
            invitees: self.invitees.deep_view(),
            users: self.users.deep_view(),
            doc_owner: self.doc_owner.deep_view(),
            cursor: self.cursor.deep_view(),
            has_more: self.has_more,
        }
    }
}

pub open spec fn spec_list_users_response(j: JsonV) -> Option<ListUsersOnPaperDocResponseV> {
    match j {
        JsonV::Obj(fields) => {
            let inv = match obj_get(fields, "invitees"@) {
                Some(JsonV::Arr(elems)) => spec_invitee_wpl_list(elems),
                _ => None,
            };
            let usr = match obj_get(fields, "users"@) {
                Some(JsonV::Arr(elems)) => spec_user_wpl_list(elems),
                _ => None,
            };
            let owner = match obj_get(fields, "doc_owner"@) {
                Some(oj) => spec_user_info(oj),
                None => None,
            };
            let cur = match obj_get(fields, "cursor"@) {
                Some(c) => spec_cursor(c),
                None => None,
            };
            match (inv, usr, owner, cur, bool_field(fields, "has_more"@)) {
                (Some(invitees), Some(users), Some(doc_owner), Some(cursor), Some(has_more)) => {
                    Some(
                        ListUsersOnPaperDocResponseV {
                            invitees,
                            users,
                            doc_owner,
                            cursor,
                            has_more,
                        },
                    )
                },
                _ => None,
            }
        },
        _ => None,
    }
}

pub fn list_users_response_from_json(j: &Json) -> (r: Option<ListUsersOnPaperDocResponse>)
    ensures
        r.deep_view() == spec_list_users_response(j@),
{
    match j {
        Json::Obj(fields) => {
            let inv: Option<Vec<InviteeInfoWithPermissionLevel>> = match e_obj_get(
                fields,
                "invitees",
            ) {
                Some(Json::Arr(elems)) => {
                    proof {
                        lemma_json_view_seq(elems@);
                        assert(json_view_seq(elems@).subrange(0, elems@.len() as int)
                            =~= json_view_seq(elems@));
                    }
                    invitee_wpl_list_from(elems, 0)
                },
                _ => None,
            };
            let usr: Option<Vec<UserInfoWithPermissionLevel>> = match e_obj_get(fields, "users") {
                Some(Json::Arr(elems)) => {
                    proof {
                        lemma_json_view_seq(elems@);
                        assert(json_view_seq(elems@).subrange(0, elems@.len() as int)
                            =~= json_view_seq(elems@));
                    }
                    user_wpl_list_from(elems, 0)
                },
                _ => None,
            };
            let owner = match e_obj_get(fields, "doc_owner") {
                Some(oj) => user_info_from_json(oj),
                None => None,
            };
            let cur = match e_obj_get(fields, "cursor") {
                Some(c) => cursor_from_json(c),
                None => None,
            };
            match (inv, usr, owner, cur, e_bool_field(fields, "has_more")) {
                (Some(invitees), Some(users), Some(doc_owner), Some(cursor), Some(has_more)) => {
                    Some(
                        ListUsersOnPaperDocResponse { invitees, users, doc_owner, cursor, has_more },
                    )
                },
                _ => None,
            }
        },
        _ => None,
    }
}

#[derive(Debug)]
pub struct ListUsersOnPaperDocContinueArgs {
    pub doc_id: String,
    pub cursor: String,
}

pub struct ListUsersOnPaperDocContinueArgsV {
    pub doc_id: Seq<char>,
    pub cursor: Seq<char>,
}

impl DeepView for ListUsersOnPaperDocContinueArgs {
    type V = ListUsersOnPaperDocContinueArgsV;

    open spec fn deep_view(&self) -> ListUsersOnPaperDocContinueArgsV {
        ListUsersOnPaperDocContinueArgsV { doc_id: self.doc_id@, cursor: self.cursor@ }
    }
}

pub open spec fn spec_list_users_continue_args_json(a: ListUsersOnPaperDocContinueArgsV) -> JsonV {
    JsonV::Obj(seq![("doc_id"@, JsonV::Str(a.doc_id)), ("cursor"@, JsonV::Str(a.cursor))])
}

pub fn list_users_continue_args_json(a: &ListUsersOnPaperDocContinueArgs) -> (r: Json)
    ensures
        r@ == spec_list_users_continue_args_json(a.deep_view()),
{
    let mut fields: Vec<(String, Json)> = Vec::new();
    fields.push(("doc_id".to_owned(), Json::Str(a.doc_id.clone())));
    fields.push(("cursor".to_owned(), Json::Str(a.cursor.clone())));
    proof {
        lemma_json_view_fields(fields@);
        assert(json_view_fields(fields@) =~= spec_list_users_continue_args_json(
            a.deep_view(),
        )->Obj_0);
    }
    Json::Obj(fields)
}

/// The `users/remove` argument.
#[derive(Debug)]
pub struct RemovePaperDocUser {
    pub doc_id: String,
    pub member: MemberSelector,
}

pub struct RemovePaperDocUserV {
    pub doc_id: Seq<char>,
    pub member: MemberSelectorV,
}

impl DeepView for RemovePaperDocUser {
    type V = RemovePaperDocUserV;

    open spec fn deep_view(&self) -> RemovePaperDocUserV {
        RemovePaperDocUserV { doc_id: self.doc_id@, member: self.member.deep_view() }
    }
}

pub open spec fn spec_remove_paper_doc_user_json(a: RemovePaperDocUserV) -> JsonV {
    JsonV::Obj(
        seq![("doc_id"@, JsonV::Str(a.doc_id)), ("member"@, spec_member_selector_json(a.member))],
    )
}

pub fn remove_paper_doc_user_json(a: &RemovePaperDocUser) -> (r: Json)
    ensures
        r@ == spec_remove_paper_doc_user_json(a.deep_view()),
{
    let mut fields: Vec<(String, Json)> = Vec::new();
    fields.push(("doc_id".to_owned(), Json::Str(a.doc_id.clone())));
    fields.push(("member".to_owned(), member_selector_json(&a.member)));
    proof {
        lemma_json_view_fields(fields@);
        assert(json_view_fields(fields@) =~= spec_remove_paper_doc_user_json(
            a.deep_view(),
        )->Obj_0);
    }
    Json::Obj(fields)
}

} // verus!

verus! {

// Readers for the remaining argument objects, closing their round trips.

pub open spec fn spec_user_filter_of(s: Seq<char>) -> Option<UserOnPaperDocFilter> {
    if s == "visited"@ {
        Some(UserOnPaperDocFilter::Visited)
    } else if s == "shared"@ {
        Some(UserOnPaperDocFilter::Shared)
    } else {
        None
    }
}

pub fn user_filter_of(s: &str) -> (r: Option<UserOnPaperDocFilter>)
    ensures
        r == spec_user_filter_of(s@),
{
    if str_eq(s, "visited") {
        Some(UserOnPaperDocFilter::Visited)
    } else if str_eq(s, "shared") {
        Some(UserOnPaperDocFilter::Shared)
    } else {
        None
    }
}

pub open spec fn spec_list_users_args_from_json(j: JsonV) -> Option<ListUsersOnPaperDocArgsV> {
    match j {
        JsonV::Obj(fields) => {
            let fb = match obj_get(fields, "filter_by"@) {
                Some(JsonV::Str(s)) => spec_user_filter_of(s),
                _ => None,
            };
            match (str_field(fields, "doc_id"@), int_field(fields, "limit"@), fb) {
                (Some(d), Some(l), Some(filter_by)) => {
                    if -0x8000_0000 <= l && l <= 0x7fff_ffff {
                        Some(ListUsersOnPaperDocArgsV { doc_id: d, limit: l, filter_by })
                    } else {
                        None
                    }
                },
                _ => None,
            }
        },
        _ => None,
    }
}

pub fn list_users_args_from_json(j: &Json) -> (r: Option<ListUsersOnPaperDocArgs>)
    ensures
        r.deep_view() == spec_list_users_args_from_json(j@),
{
    match j {
        Json::Obj(fields) => {
            let fb: Option<UserOnPaperDocFilter> = match e_obj_get(fields, "filter_by") {
                Some(Json::Str(s)) => user_filter_of(s.as_str()),
                _ => None,
            };
            match (e_str_field(fields, "doc_id"), e_int_field(fields, "limit"), fb) {
                (Some(d), Some(l), Some(filter_by)) => {
                    if -0x8000_0000 <= l && l <= 0x7fff_ffff {
                        Some(
                            ListUsersOnPaperDocArgs { doc_id: d, limit: l as i32, filter_by },
                        )
                    } else {
                        None
                    }
                },
                _ => None,
            }
        },
        _ => None,
    }
}

pub open spec fn spec_list_users_continue_args_from_json(j: JsonV) -> Option<
    ListUsersOnPaperDocContinueArgsV,
> {
    match j {
        JsonV::Obj(fields) => match (str_field(fields, "doc_id"@), str_field(fields, "cursor"@)) {
            (Some(d), Some(c)) => Some(ListUsersOnPaperDocContinueArgsV { doc_id: d, cursor: c }),
            _ => None,
        },
        _ => None,
    }
}

pub fn list_users_continue_args_from_json(j: &Json) -> (r: Option<ListUsersOnPaperDocContinueArgs>)
    ensures
        r.deep_view() == spec_list_users_continue_args_from_json(j@),
{
    match j {
        Json::Obj(fields) => match (e_str_field(fields, "doc_id"), e_str_field(
            fields,
            "cursor",
        )) {
            (Some(d), Some(c)) => Some(ListUsersOnPaperDocContinueArgs { doc_id: d, cursor: c }),
            _ => None,
        },
        _ => None,
    }
}

pub open spec fn spec_remove_paper_doc_user_from_json(j: JsonV) -> Option<RemovePaperDocUserV> {
    match j {
        JsonV::Obj(fields) => {
            let m = match obj_get(fields, "member"@) {
                Some(mj) => spec_member_selector_from_json(mj),
                None => None,
            };
            match (str_field(fields, "doc_id"@), m) {
                (Some(d), Some(member)) => Some(RemovePaperDocUserV { doc_id: d, member }),
                _ => None,
            }
        },
        _ => None,
    }
}

pub fn remove_paper_doc_user_from_json(j: &Json) -> (r: Option<RemovePaperDocUser>)
    ensures
        r.deep_view() == spec_remove_paper_doc_user_from_json(j@),
{
    match j {
        Json::Obj(fields) => {
            let m = match e_obj_get(fields, "member") {
                Some(mj) => member_selector_from_json(mj),
                None => None,
            };
            match (e_str_field(fields, "doc_id"), m) {
                (Some(d), Some(member)) => Some(RemovePaperDocUser { doc_id: d, member }),
                _ => None,
            }
        },
        _ => None,
    }
}

} // verus!

use crate::json::{
    lemma_parse_json_text, lemma_strlit_ne, lemma_wf_json_fields_all, lemma_wf_json_list_all,
    parse_json, json_text, wf_json,
};

verus! {

// ---------------------------------------------------------------------------
// The encode/decode round trips of the user-facing argument objects.
// ---------------------------------------------------------------------------

proof fn lemma_member_selector_wf(m: MemberSelectorV)
    ensures
        wf_json(spec_member_selector_json(m)),
{
    lemma_wf_json_fields_all(spec_member_selector_json(m)->Obj_0);
}

/// Law: a member selector survives its wire round trip.
pub proof fn lemma_member_selector_round_trip(m: MemberSelectorV)
    ensures
        spec_member_selector_from_json(spec_member_selector_json(m)) == Some(m),
        parse_json(json_text(spec_member_selector_json(m))) == Some(spec_member_selector_json(m)),
{
    let j = spec_member_selector_json(m);
    lemma_member_selector_wf(m);
    lemma_parse_json_text(j);
    reveal_strlit(".tag");
    reveal_strlit("dropbox_id");
    reveal_strlit("email");
    assert((".tag"@).len() == 4);
    assert(("dropbox_id"@).len() == 10);
    assert(("email"@).len() == 5);
    lemma_strlit_ne("email"@, "dropbox_id"@);
    lemma_strlit_ne(".tag"@, "dropbox_id"@);
    lemma_strlit_ne(".tag"@, "email"@);
    reveal_with_fuel(crate::json::obj_get, 10);
    assert(spec_member_selector_from_json(j) == Some(m));
}

proof fn lemma_add_member_wf(m: AddMemberV)
    ensures
        wf_json(spec_add_member_json(m)),
{
    lemma_member_selector_wf(m.member);
    lemma_wf_json_fields_all(spec_add_member_json(m)->Obj_0);
}

/// Law: one member-with-permission entry survives its wire round trip.
pub proof fn lemma_add_member_round_trip(m: AddMemberV)
    ensures
        spec_add_member_from_json(spec_add_member_json(m)) == Some(m),
        parse_json(json_text(spec_add_member_json(m))) == Some(spec_add_member_json(m)),
{
    let j = spec_add_member_json(m);
    lemma_add_member_wf(m);
    lemma_parse_json_text(j);
    lemma_member_selector_round_trip(m.member);
    reveal_strlit("member");
    reveal_strlit("permission_level");
    reveal_strlit("edit");
    reveal_strlit("view_and_comment");
    assert(("member"@).len() == 6);
    assert(("permission_level"@).len() == 16);
    assert(("edit"@).len() == 4);
    assert(("view_and_comment"@).len() == 16);
    lemma_strlit_ne("member"@, "permission_level"@);
    lemma_strlit_ne("edit"@, "view_and_comment"@);
    reveal_with_fuel(crate::json::obj_get, 10);
    assert(spec_add_member_from_json(j) == Some(m));
}

proof fn lemma_add_member_list_round_trip(ms: Seq<AddMemberV>)
    ensures
        spec_add_member_list_from_json(spec_add_member_list_json(ms)) == Some(ms),
    decreases ms.len(),
{
    let js = spec_add_member_list_json(ms);
    if ms.len() == 0 {
        assert(ms =~= Seq::<AddMemberV>::empty());
    } else {
        lemma_add_member_round_trip(ms[0]);
        lemma_add_member_list_round_trip(ms.subrange(1, ms.len() as int));
        assert(js.subrange(1, js.len() as int) =~= spec_add_member_list_json(
            ms.subrange(1, ms.len() as int),
        ));
        assert(seq![ms[0]] + ms.subrange(1, ms.len() as int) =~= ms);
    }
}

proof fn lemma_add_member_list_wf(ms: Seq<AddMemberV>)
    ensures
        crate::json::wf_json_list(spec_add_member_list_json(ms)),
{
    let js = spec_add_member_list_json(ms);
    assert forall|k: int| 0 <= k < js.len() implies wf_json(#[trigger] js[k]) by {
        lemma_add_member_wf(ms[k]);
    }
    lemma_wf_json_list_all(js);
}

/// Law: the add-users argument, members and all, survives its wire round
/// trip.
pub proof fn lemma_add_paper_doc_user_round_trip(a: AddPaperDocUserV)
    ensures
        spec_add_paper_doc_user_from_json(spec_add_paper_doc_user_json(a)) == Some(a),
        parse_json(json_text(spec_add_paper_doc_user_json(a))) == Some(
            spec_add_paper_doc_user_json(a),
        ),
{
    let j = spec_add_paper_doc_user_json(a);
    let fs = j->Obj_0;
    assert(wf_json(j)) by {
        lemma_add_member_list_wf(a.members);
        lemma_wf_json_fields_all(fs);
    }
    lemma_parse_json_text(j);
    lemma_add_member_list_round_trip(a.members);
    reveal_strlit("doc_id");
    reveal_strlit("members");
    reveal_strlit("custom_message");
    reveal_strlit("quiet");
    assert(("doc_id"@).len() == 6);
    assert(("members"@).len() == 7);
    assert(("custom_message"@).len() == 14);
    assert(("quiet"@).len() == 5);
    lemma_strlit_ne("doc_id"@, "members"@);
    lemma_strlit_ne("doc_id"@, "custom_message"@);
    lemma_strlit_ne("doc_id"@, "quiet"@);
    lemma_strlit_ne("members"@, "custom_message"@);
    lemma_strlit_ne("members"@, "quiet"@);
    lemma_strlit_ne("custom_message"@, "quiet"@);
    reveal_with_fuel(crate::json::obj_get, 10);
    match a.custom_message {
        Some(msg) => {
            assert(fs =~= seq![
                ("doc_id"@, JsonV::Str(a.doc_id)),
                ("members"@, JsonV::Arr(spec_add_member_list_json(a.members))),
                ("custom_message"@, JsonV::Str(msg)),
                ("quiet"@, JsonV::Bool(a.quiet)),
            ]);
        },
        None => {
            assert(fs =~= seq![
                ("doc_id"@, JsonV::Str(a.doc_id)),
                ("members"@, JsonV::Arr(spec_add_member_list_json(a.members))),
                ("quiet"@, JsonV::Bool(a.quiet)),
            ]);
        },
    }
    assert(spec_add_paper_doc_user_from_json(j) == Some(a));
}

/// Law: the users-list argument survives its wire round trip.
pub proof fn lemma_list_users_args_round_trip(a: ListUsersOnPaperDocArgsV)
    requires
        -0x8000_0000 <= a.limit <= 0x7fff_ffff,
    ensures
        spec_list_users_args_from_json(spec_list_users_args_json(a)) == Some(a),
        parse_json(json_text(spec_list_users_args_json(a))) == Some(spec_list_users_args_json(a)),
{
    let j = spec_list_users_args_json(a);
    assert(wf_json(j)) by {
        lemma_wf_json_fields_all(j->Obj_0);
    }
    lemma_parse_json_text(j);
    reveal_strlit("doc_id");
    reveal_strlit("limit");
    reveal_strlit("filter_by");
    reveal_strlit("visited");
    reveal_strlit("shared");
    assert(("doc_id"@).len() == 6);
    assert(("limit"@).len() == 5);
    assert(("filter_by"@).len() == 9);
    assert(("visited"@).len() == 7);
    assert(("shared"@).len() == 6);
    lemma_strlit_ne("doc_id"@, "limit"@);
    lemma_strlit_ne("doc_id"@, "filter_by"@);
    lemma_strlit_ne("limit"@, "filter_by"@);
    lemma_strlit_ne("visited"@, "shared"@);
    reveal_with_fuel(crate::json::obj_get, 10);
    assert(spec_list_users_args_from_json(j) == Some(a));
}

/// Law: the users-list continuation argument survives its round trip.
pub proof fn lemma_list_users_continue_args_round_trip(a: ListUsersOnPaperDocContinueArgsV)
    ensures
        spec_list_users_continue_args_from_json(spec_list_users_continue_args_json(a)) == Some(a),
        parse_json(json_text(spec_list_users_continue_args_json(a))) == Some(
            spec_list_users_continue_args_json(a),
        ),
{
    let j = spec_list_users_continue_args_json(a);
    assert(wf_json(j)) by {
        lemma_wf_json_fields_all(j->Obj_0);
    }
    lemma_parse_json_text(j);
    reveal_strlit("doc_id");
    reveal_strlit("cursor");
    assert(("doc_id"@)[0] == 'd');
    assert(("cursor"@)[0] == 'c');
    assert(("doc_id"@).len() == 6);
    assert(("cursor"@).len() == 6);
    lemma_strlit_ne("doc_id"@, "cursor"@);
    reveal_with_fuel(crate::json::obj_get, 10);
    assert(spec_list_users_continue_args_from_json(j) == Some(a));
}

/// Law: the remove-user argument survives its wire round trip.
pub proof fn lemma_remove_paper_doc_user_round_trip(a: RemovePaperDocUserV)
    ensures
        spec_remove_paper_doc_user_from_json(spec_remove_paper_doc_user_json(a)) == Some(a),
        parse_json(json_text(spec_remove_paper_doc_user_json(a))) == Some(
            spec_remove_paper_doc_user_json(a),
        ),
{
    let j = spec_remove_paper_doc_user_json(a);
    assert(wf_json(j)) by {
        lemma_member_selector_wf(a.member);
        lemma_wf_json_fields_all(j->Obj_0);
    }
    lemma_parse_json_text(j);
    lemma_member_selector_round_trip(a.member);
    reveal_strlit("doc_id");
    reveal_strlit("member");
    assert(("doc_id"@)[0] == 'd');
    assert(("member"@)[0] == 'm');
    assert(("doc_id"@).len() == 6);
    assert(("member"@).len() == 6);
    lemma_strlit_ne("doc_id"@, "member"@);
    reveal_with_fuel(crate::json::obj_get, 10);
    assert(spec_remove_paper_doc_user_from_json(j) == Some(a));
}

} // verus!
