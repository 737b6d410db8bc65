//! The search request as clients send it, and the form the store receives.

use vstd::prelude::*;
use crate::priority::{IssuePriority, priority_text};
use crate::search;

verus! {

/// The column a client asks to order issues by.
#[derive(Clone, Copy, Debug, PartialEq, Eq, Structural)]
pub enum IssueSortField {
    SortOrder,
    Priority,
    CreatedAt,
    UpdatedAt,
    Title,
}

/// The order a client asks for.
#[derive(Clone, Copy, Debug, PartialEq, Eq, Structural)]
pub enum SortDirection {
    Asc,
    Desc,
}

/// A search over the issues of one project, as a client sends it.
pub struct SearchIssuesRequest {
    pub project_id: u128,
    pub status_id: Option<u128>,
    pub status_ids: Option<Vec<u128>>,
    pub priority: Option<IssuePriority>,
    pub parent_issue_id: Option<u128>,
    pub search: Option<String>,
    pub simple_id: Option<String>,
    pub assignee_user_id: Option<u128>,
    pub tag_id: Option<u128>,
    pub tag_ids: Option<Vec<u128>>,
    pub sort_field: Option<IssueSortField>,
    pub sort_direction: Option<SortDirection>,
    pub limit: Option<i32>,
    pub offset: Option<i32>,
}

/// The store's sort field for a client's.
pub open spec fn db_sort_field(f: IssueSortField) -> search::IssueSortField {
    match f {
        IssueSortField::SortOrder => search::IssueSortField::SortOrder,
        IssueSortField::Priority => search::IssueSortField::Priority,
        IssueSortField::CreatedAt => search::IssueSortField::CreatedAt,
        IssueSortField::UpdatedAt => search::IssueSortField::UpdatedAt,
        IssueSortField::Title => search::IssueSortField::Title,
    }
}

/// The store's sort direction for a client's.
pub open spec fn db_sort_direction(d: SortDirection) -> search::SortDirection {
    match d {
        SortDirection::Asc => search::SortDirection::Asc,
        SortDirection::Desc => search::SortDirection::Desc,
    }
}

pub open spec fn ids_view(o: Option<Vec<u128>>) -> Option<Seq<u128>> {
    match o {
        Some(v) => Some(v@),
        None => None,
    }
}

pub open spec fn text_view(o: Option<String>) -> Option<Seq<char>> {
    match o {
        Some(s) => Some(s@),
        None => None,
    }
}

/// The store form of a client's search: every filter carried over
/// as it is, the priority as its stored word, the sort choices as the store's.
pub open spec fn store_form_of(req: SearchIssuesRequest, db: search::SearchIssuesRequest) -> bool {
    &&& db.project_id == req.project_id
    &&& db.status_id == req.status_id
    &&& ids_view(db.status_ids) == ids_view(req.status_ids)
    &&& text_view(db.priority) == match req.priority {
        Some(p) => Some(priority_text(p)),
        None => None::<Seq<char>>,
    }
    &&& db.parent_issue_id == req.parent_issue_id
    &&& text_view(db.search) == text_view(req.search)
    &&& text_view(db.simple_id) == text_view(req.simple_id)
    &&& db.assignee_user_id == req.assignee_user_id
    &&& db.tag_id == req.tag_id
    &&& ids_view(db.tag_ids) == ids_view(req.tag_ids)
    &&& db.sort_field == match req.sort_field {
        Some(f) => Some(db_sort_field(f)),
        None => None::<search::IssueSortField>,
    }
    &&& db.sort_direction == match req.sort_direction {
        Some(d) => Some(db_sort_direction(d)),
        None => None::<search::SortDirection>,
    }
    &&& db.limit == req.limit
    &&& db.offset == req.offset
}

/// Different client directions stay different in the store, and each becomes the
/// store's direction of the same name.
pub proof fn lemma_db_sort_direction_faithful(a: SortDirection, b: SortDirection)
    ensures
        db_sort_direction(a) == db_sort_direction(b) ==> a == b,
        (a == SortDirection::Desc) <==> (db_sort_direction(a) == search::SortDirection::Desc),
        (a == SortDirection::Asc) <==> (db_sort_direction(a) == search::SortDirection::Asc),
{
}

/// Different client sort fields stay different in the store, and each becomes
/// the store's field of the same name.
pub proof fn lemma_db_sort_field_faithful(a: IssueSortField, b: IssueSortField)
    ensures
        db_sort_field(a) == db_sort_field(b) ==> a == b,
        (a == IssueSortField::SortOrder) <==> (db_sort_field(a) == search::IssueSortField::SortOrder),
        (a == IssueSortField::Priority) <==> (db_sort_field(a) == search::IssueSortField::Priority),
        (a == IssueSortField::CreatedAt) <==> (db_sort_field(a) == search::IssueSortField::CreatedAt),
        (a == IssueSortField::UpdatedAt) <==> (db_sort_field(a) == search::IssueSortField::UpdatedAt),
        (a == IssueSortField::Title) <==> (db_sort_field(a) == search::IssueSortField::Title),
{
}

/// A client's sort choices reach the store's query as asked: a descending
/// request is ordered `DESC`, any other `ASC`, and each field orders by its own
/// column.
pub proof fn lemma_store_search_orders_as_asked(req: SearchIssuesRequest, db: search::SearchIssuesRequest)
    requires
        store_form_of(req, db),
    ensures
        req.sort_direction is None <==> db.sort_direction is None,
        search::sort_keyword_text(db.sort_direction) == (if req.sort_direction == Some(SortDirection::Desc) {
            "DESC"@
        } else {
            "ASC"@
        }),
        req.sort_field is None <==> db.sort_field is None,
        search::sort_column_text(db.sort_field) == match req.sort_field {
            Some(IssueSortField::Priority) => "i.priority"@,
            Some(IssueSortField::CreatedAt) => "i.created_at"@,
            Some(IssueSortField::UpdatedAt) => "i.updated_at"@,
            Some(IssueSortField::Title) => "i.title"@,
            _ => "i.sort_order"@,
        },
{
}

fn copy_ids(o: &Option<Vec<u128>>) -> (r: Option<Vec<u128>>)
    ensures
        ids_view(r) == ids_view(*o),
{
    match o {
        None => None,
        Some(v) => {
            let mut out: Vec<u128> = Vec::new();
            let n = v.len();
            let mut i: usize = 0;
            while i < n
                invariant
                    n == v@.len(),
                    i <= n,
                    out@ == v@.take(i as int),
                decreases n - i,
            {
                out.push(v[i]);
                i = i + 1;
                assert(out@ =~= v@.take(i as int));
            }
            assert(v@.take(n as int) =~= v@);
            Some(out)
        },
    }
}

fn copy_text(o: &Option<String>) -> (r: Option<String>)
    ensures
        text_view(r) == text_view(*o),
{
    match o {
        None => None,
        Some(s) => Some(s.clone()),
    }
}

/// The store form of a client's search request.
pub fn to_db_search(req: &SearchIssuesRequest) -> (db: search::SearchIssuesRequest)
    ensures
        store_form_of(*req, db),
{
    let priority = match &req.priority {
        Some(p) => Some(crate::text::owned(p.as_str())),
        None => None,
    };
    let sort_field = match req.sort_field {
        Some(IssueSortField::SortOrder) => Some(search::IssueSortField::SortOrder),
        Some(IssueSortField::Priority) => Some(search::IssueSortField::Priority),
        Some(IssueSortField::CreatedAt) => Some(search::IssueSortField::CreatedAt),
        Some(IssueSortField::UpdatedAt) => Some(search::IssueSortField::UpdatedAt),
        Some(IssueSortField::Title) => Some(search::IssueSortField::Title),
        None => None,
    };
    let sort_direction = match req.sort_direction {
        Some(SortDirection::Asc) => Some(search::SortDirection::Asc),
        Some(SortDirection::Desc) => Some(search::SortDirection::Desc),
        None => None,
    };
    search::SearchIssuesRequest {
        project_id: req.project_id,
        status_id: req.status_id,
        status_ids: copy_ids(&req.status_ids),
        priority,
        parent_issue_id: req.parent_issue_id,
        search: copy_text(&req.search),
        simple_id: copy_text(&req.simple_id),
        assignee_user_id: req.assignee_user_id,
        tag_id: req.tag_id,
        tag_ids: copy_ids(&req.tag_ids),
        sort_field,
        sort_direction,
        limit: req.limit,
        offset: req.offset,
    }
}

} // verus!
