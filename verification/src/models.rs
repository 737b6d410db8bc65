//! Board records and request bodies that the library computes with.

use vstd::prelude::*;
use crate::color::hsl_valid;
use crate::errors::{check_optional_color, invalid_color_message, ErrorResponse, STATUS_BAD_REQUEST, STATUS_NOT_FOUND};

verus! {

/// A label that issues of a project can carry.
pub struct KanbanTag {
    pub id: u128,
    pub project_id: u128,
    pub name: String,
    pub color: String,
}

/// A change to a tag: each field present is replaced.
pub struct UpdateKanbanTag {
    pub name: Option<String>,
    pub color: Option<String>,
}

/// A change to a tag as the route receives it.
pub struct UpdateTagRequest {
    pub name: Option<String>,
    pub color: Option<String>,
}

/// A change to a project as the route receives it.
pub struct UpdateProjectRequest {
    pub name: Option<String>,
    pub color: Option<String>,
}

/// A change to a project status as the route receives it.
pub struct UpdateProjectStatusRequest {
    pub name: Option<String>,
    pub color: Option<String>,
    pub sort_order: Option<i32>,
    pub hidden: Option<bool>,
}

/// Whether an optional colour passes validation: absent, or in `"H S% L%"` form.
pub open spec fn optional_color_ok(color: Option<String>) -> bool {
    match color {
        Some(c) => hsl_valid(c@),
        None => true,
    }
}

impl UpdateTagRequest {
    /// Rejects the request when it sets a colour not in `"H S% L%"` form.
    pub fn check(&self) -> (r: Result<(), ErrorResponse>)
        ensures
            r is Ok <==> optional_color_ok(self.color),
            r matches Err(e) ==> e.status_spec() == STATUS_BAD_REQUEST && e.message_spec()
                == invalid_color_message(),
    {
        check_optional_color(&self.color)
    }
}

impl UpdateProjectRequest {
    /// Rejects the request when it sets a colour not in `"H S% L%"` form.
    pub fn check(&self) -> (r: Result<(), ErrorResponse>)
        ensures
            r is Ok <==> optional_color_ok(self.color),
            r matches Err(e) ==> e.status_spec() == STATUS_BAD_REQUEST && e.message_spec()
                == invalid_color_message(),
    {
        check_optional_color(&self.color)
    }
}

impl UpdateProjectStatusRequest {
    /// Rejects the request when it sets a colour not in `"H S% L%"` form.
    pub fn check(&self) -> (r: Result<(), ErrorResponse>)
        ensures
            r is Ok <==> optional_color_ok(self.color),
            r matches Err(e) ==> e.status_spec() == STATUS_BAD_REQUEST && e.message_spec()
                == invalid_color_message(),
    {
        check_optional_color(&self.color)
    }
}

/// The answer to a create or update: the record and a transaction id.
pub struct MutationResponse<T> {
    pub data: T,
    pub txid: i64,
}

/// The answer to a delete: a transaction id.
pub struct DeleteResponse {
    pub txid: i64,
}

/// A tag's fields after an update: each field the update gives, otherwise the
/// stored one.
pub open spec fn tag_after(tag_name: Seq<char>, tag_color: Seq<char>, data: UpdateKanbanTag) -> (
    Seq<char>,
    Seq<char>,
) {
    (
        match data.name {
            Some(n) => n@,
            None => tag_name,
        },
        match data.color {
            Some(c) => c@,
            None => tag_color,
        },
    )
}

impl KanbanTag {
    /// The tag as an update leaves it: same identity and project, each given
    /// field replaced.
    pub fn updated(&self, data: &UpdateKanbanTag) -> (t: KanbanTag)
        ensures
            t.id == self.id,
            t.project_id == self.project_id,
            (t.name@, t.color@) == tag_after(self.name@, self.color@, *data),
    {
        let name = match &data.name {
            Some(n) => n.clone(),
            None => self.name.clone(),
        };
        let color = match &data.color {
            Some(c) => c.clone(),
            None => self.color.clone(),
        };
        KanbanTag { id: self.id, project_id: self.project_id, name, color }
    }
}

impl UpdateTagRequest {
    /// The store's tag update for this request.
    pub fn to_update(&self) -> (u: UpdateKanbanTag)
        ensures
            match (u.name, self.name) {
                (Some(a), Some(b)) => a@ == b@,
                (None, None) => true,
                _ => false,
            },
            match (u.color, self.color) {
                (Some(a), Some(b)) => a@ == b@,
                (None, None) => true,
                _ => false,
            },
    {
        UpdateKanbanTag {
            name: match &self.name {
                Some(n) => Some(n.clone()),
                None => None,
            },
            color: match &self.color {
                Some(c) => Some(c.clone()),
                None => None,
            },
        }
    }
}

/// An empty update leaves a tag as it is.
pub proof fn lemma_empty_tag_update(name: Seq<char>, color: Seq<char>, data: UpdateKanbanTag)
    requires
        data.name is None,
        data.color is None,
    ensures
        tag_after(name, color, data) == (name, color),
{
}

/// An update sets every field it gives and keeps every field it leaves out.
pub proof fn lemma_tag_update_sets_given_fields(name: Seq<char>, color: Seq<char>, data: UpdateKanbanTag)
    ensures
        data.name matches Some(n) ==> tag_after(name, color, data).0 == n@,
        data.name is None ==> tag_after(name, color, data).0 == name,
        data.color matches Some(c) ==> tag_after(name, color, data).1 == c@,
        data.color is None ==> tag_after(name, color, data).1 == color,
{
}

/// Applying the same update twice gives what applying it once gives.
pub proof fn lemma_tag_update_idempotent(name: Seq<char>, color: Seq<char>, data: UpdateKanbanTag)
    ensures
        tag_after(tag_after(name, color, data).0, tag_after(name, color, data).1, data) == tag_after(
            name,
            color,
            data,
        ),
{
}

/// A change to a comment: a new parent (or none) and a new message, each optional.
pub struct UpdateIssueCommentRequest {
    pub parent_id: Option<Option<u128>>,
    pub message: Option<String>,
}

/// A comment on an issue; `T` is the store's timestamp type.
pub struct IssueComment<T> {
    pub id: u128,
    pub issue_id: u128,
    pub author_id: Option<u128>,
    pub parent_id: Option<u128>,
    pub message: String,
    pub created_at: T,
    pub updated_at: T,
}

/// The comments of an issue, as the fallback listing answers them.
pub struct CommentsResponse<T> {
    pub issue_comments: Vec<IssueComment<T>>,
}

/// Whether the comment's update time has to be read again from the store after
/// the update: when only the parent changed.
pub open spec fn comment_needs_refetch(req: UpdateIssueCommentRequest) -> bool {
    req.parent_id is Some && req.message is None
}

/// Whether the update time must be read again after applying `req`.
pub fn needs_updated_at_refetch(req: &UpdateIssueCommentRequest) -> (b: bool)
    ensures
        b == comment_needs_refetch(*req),
{
    req.parent_id.is_some() && req.message.is_none()
}

/// The comment an update answers with: the requested parent and message where
/// given, otherwise those of the stored comment; the update time read again when
/// only the parent changed.
pub fn final_comment<T>(
    req: UpdateIssueCommentRequest,
    stored: IssueComment<T>,
    refetched_updated_at: Option<T>,
) -> (c: IssueComment<T>)
    ensures
        c.id == stored.id,
        c.issue_id == stored.issue_id,
        c.author_id == stored.author_id,
        c.created_at == stored.created_at,
        c.parent_id == match req.parent_id {
            Some(p) => p,
            None => stored.parent_id,
        },
        c.message@ == match req.message {
            Some(m) => m@,
            None => stored.message@,
        },
        c.updated_at == if comment_needs_refetch(req) && refetched_updated_at is Some {
            refetched_updated_at->0
        } else {
            stored.updated_at
        },
{
    let refetch = needs_updated_at_refetch(&req);
    let parent_id = match req.parent_id {
        Some(p) => p,
        None => stored.parent_id,
    };
    let message = match req.message {
        Some(m) => m,
        None => stored.message,
    };
    let updated_at = match refetched_updated_at {
        Some(t) => if refetch {
            t
        } else {
            stored.updated_at
        },
        None => stored.updated_at,
    };
    IssueComment {
        id: stored.id,
        issue_id: stored.issue_id,
        author_id: stored.author_id,
        parent_id,
        message,
        created_at: stored.created_at,
        updated_at,
    }
}

/// The organisation a local project is reported under: its own, or the nil UUID.
pub fn api_project_organization(organization_id: Option<u128>) -> (id: u128)
    ensures
        id == match organization_id {
            Some(o) => o,
            None => 0,
        },
{
    match organization_id {
        Some(o) => o,
        None => 0,
    }
}

/// The paging figures of a full, unpaged listing of `n` issues: all of them,
/// from the start.
pub fn full_listing_page(n: usize) -> (page: crate::search::SearchPage)
    ensures
        page.total_count == n,
        page.limit == n,
        page.offset == 0,
{
    crate::search::SearchPage { total_count: n, limit: n, offset: 0 }
}

/// The transaction id reported with a local mutation. SQLite has no Postgres
/// transaction ids; the field stays in the answers and is always 0.
pub fn local_txid() -> (t: i64)
    ensures
        t == 0,
{
    0
}

/// The message of a bulk project update whose item names no stored project.
pub open spec fn project_not_found_message() -> Seq<char> {
    "project not found"@
}

/// The check a bulk project update makes on one item, given whether its project
/// is stored: a missing project is answered not-found before the colour is
/// looked at; then a colour not in `"H S% L%"` form is a bad request.
pub fn bulk_project_item_check(found: bool, changes: &UpdateProjectRequest) -> (r: Result<(), ErrorResponse>)
    ensures
        r is Ok <==> found && optional_color_ok(changes.color),
        !found ==> (r matches Err(e) && e.status_spec() == STATUS_NOT_FOUND && e.message_spec()
            == project_not_found_message()),
        found && !optional_color_ok(changes.color) ==> (r matches Err(e) && e.status_spec()
            == STATUS_BAD_REQUEST && e.message_spec() == invalid_color_message()),
{
    if !found {
        return Err(ErrorResponse::new(STATUS_NOT_FOUND, "project not found"));
    }
    changes.check()
}

/// The transaction id of a bulk update: 0 when there was nothing to update,
/// otherwise the one the route obtained.
pub fn bulk_txid(update_count: usize, txid: i64) -> (t: i64)
    ensures
        t == if update_count == 0 { 0 } else { txid },
{
    if update_count == 0 {
        0
    } else {
        txid
    }
}

} // verus!
