//! Issue search: the store-side request, the SQL it becomes, and paging.

use vstd::prelude::*;
use crate::sqltext::{escape_quotes, escape_sql_quotes, id_list, join, join_strings, lemma_join_starts_with_first, quote_id, quote_id_list, quoted_id, strings_view};
use crate::text::{push_signed_decimal, signed_decimal};

verus! {

/// The column an issue listing is ordered by, after status and board order.
#[derive(Clone, Copy, Debug, PartialEq, Eq, Structural)]
pub enum IssueSortField {
    SortOrder,
    Priority,
    CreatedAt,
    UpdatedAt,
    Title,
}

/// Ascending or descending order.
#[derive(Clone, Copy, Debug, PartialEq, Eq, Structural)]
pub enum SortDirection {
    Asc,
    Desc,
}

/// A search over the issues of one project, as the store receives it.
pub struct SearchIssuesRequest {
    pub project_id: u128,
    pub status_id: Option<u128>,
    pub status_ids: Option<Vec<u128>>,
    pub priority: Option<String>,
    pub parent_issue_id: Option<u128>,
    pub search: Option<String>,
    pub simple_id: Option<String>,
    pub assignee_user_id: Option<u128>,
    pub tag_id: Option<u128>,
    pub tag_ids: Option<Vec<u128>>,
    pub sort_field: Option<IssueSortField>,
    pub sort_direction: Option<SortDirection>,
    pub limit: Option<i32>,
    pub offset: Option<i32>,
}

/// The SQL queries of one search, with the paging values they use.
pub struct SearchPlan {
    pub count_sql: String,
    pub data_sql: String,
    pub limit: i64,
    pub offset: i64,
}

/// The paging figures reported with a page of results.
#[derive(Clone, Copy, Debug, PartialEq, Eq, Structural)]
pub struct SearchPage {
    pub total_count: usize,
    pub limit: usize,
    pub offset: usize,
}

pub open spec fn text_search_condition(e: Seq<char>) -> Seq<char> {
    "(i.title LIKE '%"@ + e + "%' OR COALESCE(i.description, '') LIKE '%"@ + e + "%')"@
}

pub open spec fn add_id(c: Seq<Seq<char>>, o: Option<u128>, prefix: Seq<char>) -> Seq<Seq<char>> {
    match o {
        Some(id) => c.push(prefix + quoted_id(id)),
        None => c,
    }
}

/// The conditions of a search, in the order the store combines them: the project
/// first, then each filter that the request sets. Every text placed inside an SQL
/// string literal (the priority word, the search text, the short identifier) has
/// its quotes doubled, the priority word included, so no filter can end its
/// literal early.
pub open spec fn search_conditions(q: SearchIssuesRequest) -> Seq<Seq<char>> {
    let c = seq!["i.project_id = "@ + quoted_id(q.project_id)];
    let c = add_id(c, q.status_id, "i.status_id = "@);
    let c = match q.status_ids {
        Some(ids) => c.push("i.status_id IN ("@ + id_list(ids@) + ")"@),
        None => c,
    };
    let c = match q.priority {
        Some(p) => c.push("i.priority = '"@ + escape_quotes(p@) + "'"@),
        None => c,
    };
    let c = add_id(c, q.parent_issue_id, "i.parent_issue_id = "@);
    let c = match q.search {
        Some(t) => c.push(text_search_condition(escape_quotes(t@))),
        None => c,
    };
    let c = match q.simple_id {
        Some(t) => c.push("i.simple_id LIKE '%"@ + escape_quotes(t@) + "%'"@),
        None => c,
    };
    let c = match q.assignee_user_id {
        Some(id) => c.push(
            "EXISTS (SELECT 1 FROM issue_assignees ia WHERE ia.issue_id = i.id AND ia.user_id = "@
                + quoted_id(id) + ")"@,
        ),
        None => c,
    };
    let c = match q.tag_id {
        Some(id) => c.push(
            "EXISTS (SELECT 1 FROM issue_tags it WHERE it.issue_id = i.id AND it.tag_id = "@
                + quoted_id(id) + ")"@,
        ),
        None => c,
    };
    match q.tag_ids {
        Some(ids) => c.push(
            "EXISTS (SELECT 1 FROM issue_tags it WHERE it.issue_id = i.id AND it.tag_id IN ("@
                + id_list(ids@) + "))"@,
        ),
        None => c,
    }
}

/// The `WHERE` clause of a search: its conditions joined by `AND`.
pub open spec fn where_clause(q: SearchIssuesRequest) -> Seq<char> {
    join(search_conditions(q), " AND "@)
}

/// The column named by a sort field (absent: board order).
pub open spec fn sort_column_text(f: Option<IssueSortField>) -> Seq<char> {
    match f {
        Some(IssueSortField::Priority) => "i.priority"@,
        Some(IssueSortField::CreatedAt) => "i.created_at"@,
        Some(IssueSortField::UpdatedAt) => "i.updated_at"@,
        Some(IssueSortField::Title) => "i.title"@,
        _ => "i.sort_order"@,
    }
}

/// The keyword of a sort direction (absent: ascending).
pub open spec fn sort_keyword_text(d: Option<SortDirection>) -> Seq<char> {
    match d {
        Some(SortDirection::Desc) => "DESC"@,
        _ => "ASC"@,
    }
}

/// Rows skipped: the requested offset, negative values and absence counting as 0.
pub open spec fn search_offset(o: Option<i32>) -> int {
    match o {
        Some(v) => if v < 0 { 0 } else { v as int },
        None => 0,
    }
}

/// Rows returned at most: the requested limit, negative values counting as 0;
/// absent, no limit (`i64::MAX`).
pub open spec fn search_limit(l: Option<i32>) -> int {
    match l {
        Some(v) => if v < 0 { 0 } else { v as int },
        None => i64::MAX as int,
    }
}

pub open spec fn count_sql_text(w: Seq<char>) -> Seq<char> {
    "SELECT COUNT(*) as count FROM issues i WHERE "@ + w
}

pub open spec fn data_sql_head() -> Seq<char> {
    "SELECT i.id, i.project_id, i.issue_number, i.simple_id, i.status_id,\n                      i.title, i.description, i.priority, i.start_date, i.target_date,\n                      i.completed_at, i.sort_order, i.parent_issue_id,\n                      i.parent_issue_sort_order, i.extension_metadata, i.creator_user_id,\n                      i.created_at, i.updated_at\n               FROM issues i\n               LEFT JOIN project_statuses ps ON ps.id = i.status_id\n               WHERE "@
}

/// The order of a listing. With a sort field: that column in the requested
/// direction first, then status order, board order and issue number as
/// tie-breakers. Without one: status order, then board order (the direction
/// applying to board order among equals), then issue number.
pub open spec fn order_by_text(f: Option<IssueSortField>, d: Option<SortDirection>) -> Seq<char> {
    match f {
        Some(_) => sort_column_text(f) + " "@ + sort_keyword_text(d)
            + ", ps.sort_order ASC, i.sort_order ASC, i.issue_number ASC"@,
        None => "ps.sort_order ASC, i.sort_order ASC, i.sort_order "@ + sort_keyword_text(d)
            + ", i.issue_number ASC"@,
    }
}

/// A requested sort decides the order: the listing is ordered by the requested
/// column in the requested direction before anything else.
pub proof fn lemma_requested_sort_leads(f: IssueSortField, d: Option<SortDirection>)
    ensures
        ({
            let lead = sort_column_text(Some(f)) + " "@ + sort_keyword_text(d);
            &&& order_by_text(Some(f), d).len() >= lead.len()
            &&& order_by_text(Some(f), d).subrange(0, lead.len() as int) == lead
        }),
{
    let lead = sort_column_text(Some(f)) + " "@ + sort_keyword_text(d);
    assert(order_by_text(Some(f), d).subrange(0, lead.len() as int) =~= lead);
}

/// The query for one page of a search: matching issues in the listing's order,
/// with `LIMIT` and `OFFSET`.
pub open spec fn data_sql_text(w: Seq<char>, order: Seq<char>, limit: int, offset: int) -> Seq<char> {
    data_sql_head() + w + "\n               ORDER BY "@ + order + "\n               LIMIT "@
        + signed_decimal(limit) + " OFFSET "@ + signed_decimal(offset)
}

fn id_condition(prefix: &str, id: u128) -> (s: String)
    ensures
        s@ == prefix@ + quoted_id(id),
{
    let mut s = crate::text::owned(prefix);
    let q = quote_id(id);
    s.append(q.as_str());
    s
}

fn wrapped(prefix: &str, middle: &str, suffix: &str) -> (s: String)
    ensures
        s@ == prefix@ + middle@ + suffix@,
{
    let mut s = crate::text::owned(prefix);
    s.append(middle);
    s.append(suffix);
    s
}

/// The conditions of a search, one string each.
pub fn build_conditions(q: &SearchIssuesRequest) -> (c: Vec<String>)
    ensures
        strings_view(c@) == search_conditions(*q),
{
    let mut c: Vec<String> = Vec::new();
    let ghost mut g: Seq<Seq<char>> = Seq::empty();
    c.push(id_condition("i.project_id = ", q.project_id));
    proof { g = seq!["i.project_id = "@ + quoted_id(q.project_id)]; }
    assert(strings_view(c@) =~= g);
    if let Some(id) = q.status_id {
        c.push(id_condition("i.status_id = ", id));
    }
    proof { g = add_id(g, q.status_id, "i.status_id = "@); }
    assert(strings_view(c@) =~= g);
    if let Some(ids) = &q.status_ids {
        let list = quote_id_list(ids);
        c.push(wrapped("i.status_id IN (", list.as_str(), ")"));
        proof { g = g.push("i.status_id IN ("@ + id_list(ids@) + ")"@); }
    }
    assert(strings_view(c@) =~= g);
    if let Some(p) = &q.priority {
        let e = escape_sql_quotes(p.as_str());
        c.push(wrapped("i.priority = '", e.as_str(), "'"));
        proof { g = g.push("i.priority = '"@ + escape_quotes(p@) + "'"@); }
    }
    assert(strings_view(c@) =~= g);
    if let Some(id) = q.parent_issue_id {
        c.push(id_condition("i.parent_issue_id = ", id));
    }
    proof { g = add_id(g, q.parent_issue_id, "i.parent_issue_id = "@); }
    assert(strings_view(c@) =~= g);
    if let Some(t) = &q.search {
        let e = escape_sql_quotes(t.as_str());
        let mut s = wrapped("(i.title LIKE '%", e.as_str(), "%' OR COALESCE(i.description, '') LIKE '%");
        s.append(e.as_str());
        s.append("%')");
        c.push(s);
        proof {
            g = g.push(text_search_condition(escape_quotes(t@)));
        }
    }
    assert(strings_view(c@) =~= g);
    if let Some(t) = &q.simple_id {
        let e = escape_sql_quotes(t.as_str());
        c.push(wrapped("i.simple_id LIKE '%", e.as_str(), "%'"));
        proof { g = g.push("i.simple_id LIKE '%"@ + escape_quotes(t@) + "%'"@); }
    }
    assert(strings_view(c@) =~= g);
    if let Some(id) = q.assignee_user_id {
        let qid = quote_id(id);
        c.push(
            wrapped(
                "EXISTS (SELECT 1 FROM issue_assignees ia WHERE ia.issue_id = i.id AND ia.user_id = ",
                qid.as_str(),
                ")",
            ),
        );
        proof {
            g = g.push(
                "EXISTS (SELECT 1 FROM issue_assignees ia WHERE ia.issue_id = i.id AND ia.user_id = "@
                    + quoted_id(id) + ")"@,
            );
        }
    }
    assert(strings_view(c@) =~= g);
    if let Some(id) = q.tag_id {
        let qid = quote_id(id);
        c.push(
            wrapped(
                "EXISTS (SELECT 1 FROM issue_tags it WHERE it.issue_id = i.id AND it.tag_id = ",
                qid.as_str(),
                ")",
            ),
        );
        proof {
            g = g.push(
                "EXISTS (SELECT 1 FROM issue_tags it WHERE it.issue_id = i.id AND it.tag_id = "@
                    + quoted_id(id) + ")"@,
            );
        }
    }
    assert(strings_view(c@) =~= g);
    if let Some(ids) = &q.tag_ids {
        let list = quote_id_list(ids);
        c.push(
            wrapped(
                "EXISTS (SELECT 1 FROM issue_tags it WHERE it.issue_id = i.id AND it.tag_id IN (",
                list.as_str(),
                "))",
            ),
        );
        proof {
            g = g.push(
                "EXISTS (SELECT 1 FROM issue_tags it WHERE it.issue_id = i.id AND it.tag_id IN ("@
                    + id_list(ids@) + "))"@,
            );
        }
    }
    assert(strings_view(c@) =~= g);
    c
}

/// The column named by a sort field.
pub fn sort_column(f: Option<IssueSortField>) -> (s: &'static str)
    ensures
        s@ == sort_column_text(f),
{
    match f {
        Some(IssueSortField::Priority) => "i.priority",
        Some(IssueSortField::CreatedAt) => "i.created_at",
        Some(IssueSortField::UpdatedAt) => "i.updated_at",
        Some(IssueSortField::Title) => "i.title",
        _ => "i.sort_order",
    }
}

/// The keyword of a sort direction.
pub fn sort_keyword(d: Option<SortDirection>) -> (s: &'static str)
    ensures
        s@ == sort_keyword_text(d),
{
    match d {
        Some(SortDirection::Desc) => "DESC",
        _ => "ASC",
    }
}

/// The `ORDER BY` list of a listing.
pub fn order_by(f: Option<IssueSortField>, d: Option<SortDirection>) -> (s: String)
    ensures
        s@ == order_by_text(f, d),
{
    let mut s = String::new();
    match f {
        Some(_) => {
            s.append(sort_column(f));
            s.append(" ");
            s.append(sort_keyword(d));
            s.append(", ps.sort_order ASC, i.sort_order ASC, i.issue_number ASC");
        },
        None => {
            s.append("ps.sort_order ASC, i.sort_order ASC, i.sort_order ");
            s.append(sort_keyword(d));
            s.append(", i.issue_number ASC");
        },
    }
    s
}

/// The SQL of a search and the paging it applies.
pub fn plan_search(q: &SearchIssuesRequest) -> (p: SearchPlan)
    ensures
        p.offset == search_offset(q.offset),
        p.limit == search_limit(q.limit),
        p.count_sql@ == count_sql_text(where_clause(*q)),
        p.data_sql@ == data_sql_text(
            where_clause(*q),
            order_by_text(q.sort_field, q.sort_direction),
            search_limit(q.limit),
            search_offset(q.offset),
        ),
        0 <= p.offset,
        0 <= p.limit,
{
    let conditions = build_conditions(q);
    let w = join_strings(&conditions, " AND ");
    let offset: i64 = match q.offset {
        Some(v) => if v < 0 { 0 } else { v as i64 },
        None => 0,
    };
    let limit: i64 = match q.limit {
        Some(v) => if v < 0 { 0 } else { v as i64 },
        None => i64::MAX,
    };
    let mut count_sql = crate::text::owned("SELECT COUNT(*) as count FROM issues i WHERE ");
    count_sql.append(w.as_str());
    let mut data_sql = crate::text::owned(
        "SELECT i.id, i.project_id, i.issue_number, i.simple_id, i.status_id,\n                      i.title, i.description, i.priority, i.start_date, i.target_date,\n                      i.completed_at, i.sort_order, i.parent_issue_id,\n                      i.parent_issue_sort_order, i.extension_metadata, i.creator_user_id,\n                      i.created_at, i.updated_at\n               FROM issues i\n               LEFT JOIN project_statuses ps ON ps.id = i.status_id\n               WHERE ",
    );
    data_sql.append(w.as_str());
    data_sql.append("\n               ORDER BY ");
    let order = order_by(q.sort_field, q.sort_direction);
    data_sql.append(order.as_str());
    data_sql.append("\n               LIMIT ");
    push_signed_decimal(&mut data_sql, limit);
    data_sql.append(" OFFSET ");
    push_signed_decimal(&mut data_sql, offset);
    assert(data_sql@ =~= data_sql_text(
        where_clause(*q),
        order_by_text(q.sort_field, q.sort_direction),
        search_limit(q.limit),
        search_offset(q.offset),
    ));
    SearchPlan { count_sql, data_sql, limit, offset }
}

/// The paging figures of a result: the counted total and the plan's limit and
/// offset, each as `usize` (`as` conversions, as the store does).
pub fn search_page(total_count: i64, plan: &SearchPlan) -> (page: SearchPage)
    ensures
        page.total_count == total_count as usize,
        page.limit == plan.limit as usize,
        page.offset == plan.offset as usize,
{
    SearchPage {
        total_count: total_count as usize,
        limit: plan.limit as usize,
        offset: plan.offset as usize,
    }
}

/// Every search is confined to its project: the `WHERE` clause opens with the
/// project condition, whatever filters follow.
pub proof fn lemma_search_scoped_to_project(q: SearchIssuesRequest)
    ensures
        ({
            let first = "i.project_id = "@ + quoted_id(q.project_id);
            &&& where_clause(q).len() >= first.len()
            &&& where_clause(q).subrange(0, first.len() as int) == first
        }),
{
    let c = search_conditions(q);
    assert(c.len() >= 1 && c[0] == "i.project_id = "@ + quoted_id(q.project_id)) by {
        let c0 = seq!["i.project_id = "@ + quoted_id(q.project_id)];
        assert(c0[0] == "i.project_id = "@ + quoted_id(q.project_id));
    }
    lemma_join_starts_with_first(c, " AND "@);
}

} // verus!
