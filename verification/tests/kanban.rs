use vibe_kanban::api::{self, to_db_search};
use vibe_kanban::bootstrap::{
    bootstrap_action, bootstrap_organization, bootstrap_project, default_statuses, default_tags,
    first_boot_plan, local_organization, BootstrapAction,
};
use vibe_kanban::color::is_valid_hsl_color;
use vibe_kanban::errors::{check_color, check_optional_color, error_for_kind, DbErrorKind, ErrorResponse};
use vibe_kanban::ids::resolve_id;
use vibe_kanban::issues::{
    decide_named_status_move, field_update, priority_update, simple_id, NamedStatusMove,
};
use vibe_kanban::jwt::{expiration_from_claim, subject_from_claim, synthetic_claims, TokenClaimsError};
use vibe_kanban::models::{
    api_project_organization, bulk_project_item_check, bulk_txid, local_txid, final_comment, full_listing_page, needs_updated_at_refetch,
    IssueComment, KanbanTag, UpdateIssueCommentRequest, UpdateKanbanTag, UpdateProjectRequest,
    UpdateProjectStatusRequest, UpdateTagRequest,
};
use vibe_kanban::priority::{create_priority_text, priority_to_str, IssuePriority};
use vibe_kanban::relationship::{parse_relationship_type, relationship_type_to_str, IssueRelationshipType};
use vibe_kanban::search::{
    order_by, plan_search, search_page, sort_column, sort_keyword, IssueSortField, SearchIssuesRequest,
    SortDirection,
};
use vibe_kanban::sqltext::{escape_sql_quotes, join_strings, quote_id, quote_id_list};
use vibe_kanban::text::{push_decimal, push_signed_decimal};
use vibe_kanban::workflow::{
    decide_auto_move, decide_auto_move_lowered, in_progress_applies, in_review_applies, remote_pr_status, MergeStatus,
    PullRequestStatus, WorkflowStage,
};

fn empty_search(project_id: u128) -> SearchIssuesRequest {
    SearchIssuesRequest {
        project_id,
        status_id: None,
        status_ids: None,
        priority: None,
        parent_issue_id: None,
        search: None,
        simple_id: None,
        assignee_user_id: None,
        tag_id: None,
        tag_ids: None,
        sort_field: None,
        sort_direction: None,
        limit: None,
        offset: None,
    }
}

const P: u128 = 0x0123_4567_89ab_cdef_0011_2233_4455_6677;
const P_TEXT: &str = "01234567-89ab-cdef-0011-223344556677";
const P_HEX: &str = "0123456789abcdef0011223344556677";

// ---------------------------------------------------------------- colours

#[test]
fn hsl_accepts_well_formed_colors() {
    assert!(is_valid_hsl_color("217 91% 60%"));
    assert!(is_valid_hsl_color("0 0% 0%"));
    assert!(is_valid_hsl_color("360 100% 100%"));
    assert!(is_valid_hsl_color("007 05% 010%"));
    assert!(is_valid_hsl_color("+5 +5% 5%"));
}

#[test]
fn hsl_rejects_out_of_range_components() {
    assert!(!is_valid_hsl_color("361 50% 50%"));
    assert!(!is_valid_hsl_color("100 101% 50%"));
    assert!(!is_valid_hsl_color("100 50% 101%"));
    assert!(!is_valid_hsl_color("65536 1% 1%"));
    assert!(!is_valid_hsl_color("1 256% 1%"));
}

#[test]
fn hsl_rejects_malformed_text() {
    assert!(!is_valid_hsl_color(""));
    assert!(!is_valid_hsl_color("217 91 60"));
    assert!(!is_valid_hsl_color("217  91% 60%"));
    assert!(!is_valid_hsl_color("217 91% 60% "));
    assert!(!is_valid_hsl_color(" 217 91% 60%"));
    assert!(!is_valid_hsl_color("217 91%% 60%"));
    assert!(!is_valid_hsl_color("-1 91% 60%"));
    assert!(!is_valid_hsl_color("+ 91% 60%"));
    assert!(!is_valid_hsl_color("217 % 60%"));
    assert!(!is_valid_hsl_color("abc 91% 60%"));
    assert!(!is_valid_hsl_color("217 9١% 60%"));
    assert!(!is_valid_hsl_color("217 91% 60%\u{0}"));
}

#[test]
fn every_default_color_is_valid() {
    for s in default_statuses() {
        assert!(is_valid_hsl_color(&s.color), "{}", s.color);
    }
    for t in default_tags() {
        assert!(is_valid_hsl_color(&t.color), "{}", t.color);
    }
}

#[test]
fn color_checks_answer_bad_request() {
    assert!(check_color("1 2% 3%").is_ok());
    let e = check_color("red").unwrap_err();
    assert_eq!(e.status(), 400);
    assert_eq!(e.message(), "Invalid color format. Expected HSL format: 'H S% L%'");
    assert!(check_optional_color(&None).is_ok());
    assert!(check_optional_color(&Some("1 2% 3%".to_string())).is_ok());
    assert_eq!(check_optional_color(&Some("1 2%".to_string())).unwrap_err().status(), 400);
}

// ---------------------------------------------------------------- errors

#[test]
fn store_failures_map_to_answers() {
    let e = error_for_kind(DbErrorKind::UniqueViolation, "failed to create tag");
    assert_eq!((e.status(), e.message()), (409, "resource already exists"));
    let e = error_for_kind(DbErrorKind::ForeignKeyViolation, "failed to create tag");
    assert_eq!((e.status(), e.message()), (404, "related resource not found"));
    let e = error_for_kind(DbErrorKind::Other, "failed to create tag");
    assert_eq!((e.status(), e.message()), (500, "failed to create tag"));
    let e = ErrorResponse::new(404, "tag not found");
    assert_eq!((e.status(), e.message()), (404, "tag not found"));
}

#[derive(Debug)]
struct ConstraintFailure(sqlx::error::ErrorKind);

impl std::fmt::Display for ConstraintFailure {
    fn fmt(&self, f: &mut std::fmt::Formatter<'_>) -> std::fmt::Result {
        f.write_str("constraint failed")
    }
}

impl std::error::Error for ConstraintFailure {}

impl sqlx::error::DatabaseError for ConstraintFailure {
    fn message(&self) -> &str {
        "constraint failed"
    }
    fn as_error(&self) -> &(dyn std::error::Error + Send + Sync + 'static) {
        self
    }
    fn as_error_mut(&mut self) -> &mut (dyn std::error::Error + Send + Sync + 'static) {
        self
    }
    fn into_error(self: Box<Self>) -> Box<dyn std::error::Error + Send + Sync + 'static> {
        self
    }
    fn kind(&self) -> sqlx::error::ErrorKind {
        match self.0 {
            sqlx::error::ErrorKind::UniqueViolation => sqlx::error::ErrorKind::UniqueViolation,
            sqlx::error::ErrorKind::ForeignKeyViolation => sqlx::error::ErrorKind::ForeignKeyViolation,
            _ => sqlx::error::ErrorKind::Other,
        }
    }
}

fn constraint_error(kind: sqlx::error::ErrorKind) -> sqlx::Error {
    sqlx::Error::Database(Box::new(ConstraintFailure(kind)))
}

#[test]
fn sqlx_constraint_violations_map_to_answers() {
    let e = vibe_kanban::errors::db_error(constraint_error(sqlx::error::ErrorKind::UniqueViolation), "failed to create tag");
    assert_eq!((e.status(), e.message()), (409, "resource already exists"));
    let e = vibe_kanban::errors::db_error(constraint_error(sqlx::error::ErrorKind::ForeignKeyViolation), "failed to create tag");
    assert_eq!((e.status(), e.message()), (404, "related resource not found"));
    let e = vibe_kanban::errors::db_error(constraint_error(sqlx::error::ErrorKind::CheckViolation), "failed to create tag");
    assert_eq!((e.status(), e.message()), (500, "failed to create tag"));
}

#[test]
fn sqlx_row_not_found_is_an_internal_error() {
    let e = vibe_kanban::errors::db_error(sqlx::Error::RowNotFound, "failed to get tag");
    assert_eq!((e.status(), e.message()), (500, "failed to get tag"));
}

// ---------------------------------------------------------------- priorities and relationships

#[test]
fn priority_words_round_trip() {
    for p in [IssuePriority::Urgent, IssuePriority::High, IssuePriority::Medium, IssuePriority::Low] {
        assert_eq!(IssuePriority::parse(p.as_str()), Some(p));
    }
    assert_eq!(IssuePriority::Urgent.as_str(), "urgent");
    assert_eq!(IssuePriority::Low.as_str(), "low");
    assert_eq!(IssuePriority::parse("HIGH"), None);
    assert_eq!(IssuePriority::parse(""), None);
}

#[test]
fn priority_to_str_keeps_the_three_states() {
    assert_eq!(priority_to_str(&None), None);
    assert_eq!(priority_to_str(&Some(None)), Some(None));
    assert_eq!(priority_to_str(&Some(Some(IssuePriority::High))), Some(Some("high")));
    assert_eq!(create_priority_text(None), "medium");
    assert_eq!(create_priority_text(Some("low")), "low");
}

#[test]
fn relationship_words_round_trip() {
    for t in [IssueRelationshipType::Blocking, IssueRelationshipType::Related, IssueRelationshipType::HasDuplicate] {
        assert_eq!(parse_relationship_type(relationship_type_to_str(&t)), t);
    }
    assert_eq!(relationship_type_to_str(&IssueRelationshipType::HasDuplicate), "has_duplicate");
    assert_eq!(parse_relationship_type("duplicates"), IssueRelationshipType::Blocking);
    assert_eq!(parse_relationship_type("Related"), IssueRelationshipType::Blocking);
}

// ---------------------------------------------------------------- identifiers and text

#[test]
fn uuid_text_is_hyphenated_lower_case() {
    assert_eq!(quote_id(P), format!("X'{P_HEX}'"));
    assert_eq!(quote_id(1), "X'00000000000000000000000000000001'");
    assert_eq!(subject_from_claim(Ok(Some(P_TEXT.to_string()))).unwrap(), P);
    assert_eq!(subject_from_claim(Ok(Some("01234567-89AB-CDEF-0011-223344556677".to_string()))).unwrap(), P);
    assert_eq!(subject_from_claim(Ok(Some("0123456789abcdef0011223344556677".to_string()))).unwrap(), P);
    assert!(subject_from_claim(Ok(Some("not-a-uuid".to_string()))).is_err());
    assert_eq!(resolve_id(Some(42)), 42);
    assert_ne!(resolve_id(None), resolve_id(None));
    let fresh = uuid::Uuid::from_u128(resolve_id(None));
    assert_eq!(fresh.get_version_num(), 4);
    assert_eq!(fresh.get_variant(), uuid::Variant::RFC4122);
}

#[test]
fn decimal_notation() {
    let mut s = String::new();
    push_decimal(&mut s, 0);
    push_decimal(&mut s, 9223372036854775807);
    assert_eq!(s, "09223372036854775807");
    let mut s = String::new();
    push_signed_decimal(&mut s, -42);
    push_signed_decimal(&mut s, i64::MIN);
    assert_eq!(s, "-42-9223372036854775808");
}

#[test]
fn simple_ids() {
    assert_eq!(simple_id(Some("KMM"), 178), "KMM-178");
    assert_eq!(simple_id(None, 1), "VK-1");
    assert_eq!(simple_id(Some(""), 0), "-0");
    assert_eq!(simple_id(Some("ISS"), -3), "ISS--3");
}

#[test]
fn quotes_are_doubled() {
    assert_eq!(escape_sql_quotes("it's"), "it''s");
    assert_eq!(escape_sql_quotes("''"), "''''");
    assert_eq!(escape_sql_quotes("plain"), "plain");
    assert_eq!(escape_sql_quotes(""), "");
}

#[test]
fn joined_lists() {
    assert_eq!(join_strings(&vec![], ", "), "");
    assert_eq!(join_strings(&vec!["a".to_string()], ", "), "a");
    assert_eq!(join_strings(&vec!["a".to_string(), "b".to_string(), "c".to_string()], " AND "), "a AND b AND c");
    assert_eq!(quote_id(P), format!("X'{P_HEX}'"));
    assert_eq!(quote_id_list(&vec![P, 1]), format!("X'{P_HEX}', X'00000000000000000000000000000001'"));
    assert_eq!(quote_id(u128::MAX), "X'ffffffffffffffffffffffffffffffff'");
    for id in [0u128, 1, P, u128::MAX] {
        let q = quote_id(id);
        assert_eq!(q.len(), 35);
        assert!(q.starts_with("X'") && q.ends_with('\''));
        assert!(!q[2..34].contains('\''));
    }
}

// ---------------------------------------------------------------- search

#[test]
fn search_defaults() {
    let plan = plan_search(&empty_search(P));
    assert_eq!(plan.limit, i64::MAX);
    assert_eq!(plan.offset, 0);
    assert_eq!(
        plan.count_sql,
        format!("SELECT COUNT(*) as count FROM issues i WHERE i.project_id = X'{P_HEX}'")
    );
    assert!(plan.data_sql.ends_with(&format!(
        "WHERE i.project_id = X'{P_HEX}'\n               ORDER BY ps.sort_order ASC, i.sort_order ASC, i.sort_order ASC, i.issue_number ASC\n               LIMIT 9223372036854775807 OFFSET 0"
    )));
    assert!(plan.data_sql.starts_with("SELECT i.id, i.project_id, i.issue_number, i.simple_id, i.status_id,\n"));
}

#[test]
fn search_with_every_filter() {
    let mut q = empty_search(P);
    q.status_id = Some(2);
    q.status_ids = Some(vec![3, 4]);
    q.priority = Some("high".to_string());
    q.parent_issue_id = Some(5);
    q.search = Some("O'Brien".to_string());
    q.simple_id = Some("VK-1".to_string());
    q.assignee_user_id = Some(6);
    q.tag_id = Some(7);
    q.tag_ids = Some(vec![8]);
    q.sort_field = Some(IssueSortField::Title);
    q.sort_direction = Some(SortDirection::Desc);
    q.limit = Some(-5);
    q.offset = Some(20);
    let plan = plan_search(&q);
    let u = |n: u128| uuid::Uuid::from_u128(n).simple().to_string();
    let expected_where = format!(
        "i.project_id = X'{P_HEX}' AND i.status_id = X'{}' AND i.status_id IN (X'{}', X'{}') AND i.priority = 'high' AND i.parent_issue_id = X'{}' AND (i.title LIKE '%O''Brien%' OR COALESCE(i.description, '') LIKE '%O''Brien%') AND i.simple_id LIKE '%VK-1%' AND EXISTS (SELECT 1 FROM issue_assignees ia WHERE ia.issue_id = i.id AND ia.user_id = X'{}') AND EXISTS (SELECT 1 FROM issue_tags it WHERE it.issue_id = i.id AND it.tag_id = X'{}') AND EXISTS (SELECT 1 FROM issue_tags it WHERE it.issue_id = i.id AND it.tag_id IN (X'{}'))",
        u(2), u(3), u(4), u(5), u(6), u(7), u(8)
    );
    assert_eq!(plan.count_sql, format!("SELECT COUNT(*) as count FROM issues i WHERE {expected_where}"));
    assert!(plan.data_sql.ends_with(&format!(
        "WHERE {expected_where}\n               ORDER BY i.title DESC, ps.sort_order ASC, i.sort_order ASC, i.issue_number ASC\n               LIMIT 0 OFFSET 20"
    )));
    assert_eq!((plan.limit, plan.offset), (0, 20));
    let page = search_page(12, &plan);
    assert_eq!((page.total_count, page.limit, page.offset), (12, 0, 20));
}

#[test]
fn requested_sort_orders_the_listing() {
    assert_eq!(order_by(None, None), "ps.sort_order ASC, i.sort_order ASC, i.sort_order ASC, i.issue_number ASC");
    assert_eq!(
        order_by(Some(IssueSortField::CreatedAt), None),
        "i.created_at ASC, ps.sort_order ASC, i.sort_order ASC, i.issue_number ASC"
    );
    assert_eq!(
        order_by(Some(IssueSortField::Priority), Some(SortDirection::Desc)),
        "i.priority DESC, ps.sort_order ASC, i.sort_order ASC, i.issue_number ASC"
    );
    let mut q = empty_search(P);
    q.sort_field = Some(IssueSortField::UpdatedAt);
    q.sort_direction = Some(SortDirection::Asc);
    let plan = plan_search(&q);
    assert!(plan.data_sql.contains("ORDER BY i.updated_at ASC, ps.sort_order ASC"));
}

#[test]
fn search_priority_word_is_escaped() {
    let mut q = empty_search(P);
    q.priority = Some("a'b".to_string());
    let plan = plan_search(&q);
    assert_eq!(
        plan.count_sql,
        format!("SELECT COUNT(*) as count FROM issues i WHERE i.project_id = X'{P_HEX}' AND i.priority = 'a''b'")
    );
}

#[test]
fn search_negative_offset_counts_as_zero() {
    let mut q = empty_search(P);
    q.offset = Some(-1);
    q.limit = Some(10);
    let plan = plan_search(&q);
    assert_eq!((plan.limit, plan.offset), (10, 0));
    assert!(plan.data_sql.ends_with("LIMIT 10 OFFSET 0"));
}

#[test]
fn sort_words() {
    assert_eq!(sort_column(None), "i.sort_order");
    assert_eq!(sort_column(Some(IssueSortField::Priority)), "i.priority");
    assert_eq!(sort_column(Some(IssueSortField::CreatedAt)), "i.created_at");
    assert_eq!(sort_column(Some(IssueSortField::UpdatedAt)), "i.updated_at");
    assert_eq!(sort_keyword(None), "ASC");
    assert_eq!(sort_keyword(Some(SortDirection::Desc)), "DESC");
}

#[test]
fn client_search_in_store_form() {
    let req = api::SearchIssuesRequest {
        project_id: P,
        status_id: Some(1),
        status_ids: Some(vec![2, 3]),
        priority: Some(IssuePriority::Urgent),
        parent_issue_id: None,
        search: Some("x".to_string()),
        simple_id: None,
        assignee_user_id: Some(4),
        tag_id: None,
        tag_ids: Some(vec![]),
        sort_field: Some(api::IssueSortField::CreatedAt),
        sort_direction: Some(api::SortDirection::Asc),
        limit: Some(50),
        offset: None,
    };
    let db = to_db_search(&req);
    assert_eq!(db.project_id, P);
    assert_eq!(db.status_id, Some(1));
    assert_eq!(db.status_ids, Some(vec![2, 3]));
    assert_eq!(db.priority.as_deref(), Some("urgent"));
    assert_eq!(db.search.as_deref(), Some("x"));
    assert_eq!(db.assignee_user_id, Some(4));
    assert_eq!(db.tag_ids, Some(vec![]));
    assert_eq!(db.sort_field, Some(IssueSortField::CreatedAt));
    assert_eq!(db.sort_direction, Some(SortDirection::Asc));
    assert_eq!((db.limit, db.offset), (Some(50), None));
}

// ---------------------------------------------------------------- updates and moves

#[test]
fn update_fields_follow_the_three_states() {
    assert_eq!(field_update::<u128>(None), (false, None));
    assert_eq!(field_update::<u128>(Some(None)), (true, None));
    assert_eq!(field_update(Some(Some(3u128))), (true, Some(3)));
    assert_eq!(priority_update(None).0, false);
    assert_eq!(priority_update(Some(None)), (true, String::new()));
    assert_eq!(IssuePriority::parse(&priority_update(Some(None)).1), None);
    assert_eq!(priority_update(Some(Some("urgent"))), (true, "urgent".to_string()));
}

#[test]
fn named_status_moves() {
    assert_eq!(decide_named_status_move(None, Some(1)), NamedStatusMove::IssueMissing);
    assert_eq!(decide_named_status_move(Some(1), None), NamedStatusMove::Unchanged);
    assert_eq!(decide_named_status_move(Some(1), Some(1)), NamedStatusMove::Unchanged);
    assert_eq!(decide_named_status_move(Some(1), Some(2)), NamedStatusMove::MoveTo(2));
    assert_eq!(decide_named_status_move(Some(2), Some(2)), NamedStatusMove::Unchanged);
}

#[test]
fn workflow_moves() {
    assert!(in_progress_applies("backlog"));
    assert!(in_progress_applies("to do"));
    assert!(!in_progress_applies("in progress"));
    assert!(in_review_applies("in progress"));
    assert!(!in_review_applies("done"));
    assert_eq!(decide_auto_move(WorkflowStage::InProgress, Some(9), Some("To Do")), Some(9));
    assert_eq!(decide_auto_move(WorkflowStage::InProgress, Some(9), Some("BACKLOG")), Some(9));
    assert_eq!(decide_auto_move(WorkflowStage::InProgress, Some(9), Some("In review")), None);
    assert_eq!(decide_auto_move(WorkflowStage::InProgress, None, Some("To do")), None);
    assert_eq!(decide_auto_move(WorkflowStage::InProgress, Some(9), None), None);
    assert_eq!(decide_auto_move(WorkflowStage::InReview, Some(8), Some("In Progress")), Some(8));
    assert_eq!(decide_auto_move(WorkflowStage::InReview, Some(8), Some("Done")), None);
    assert_eq!(decide_auto_move(WorkflowStage::Done, Some(7), None), Some(7));
    assert_eq!(decide_auto_move(WorkflowStage::Done, None, Some("Backlog")), None);
    assert_eq!(decide_auto_move_lowered(WorkflowStage::InReview, Some(8), Some("to do")), Some(8));
    assert_eq!(WorkflowStage::InProgress.status_name(), "in progress");
    assert_eq!(WorkflowStage::InReview.status_name(), "in review");
    assert_eq!(WorkflowStage::Done.status_name(), "done");
    for stage in [WorkflowStage::InProgress, WorkflowStage::InReview, WorkflowStage::Done] {
        assert!(!in_progress_applies(WorkflowStage::Done.status_name()) && !in_review_applies(WorkflowStage::Done.status_name()));
        assert_eq!(decide_auto_move(stage, Some(1), Some("Done")), if stage == WorkflowStage::Done { Some(1) } else { None });
    }
}

#[test]
fn tag_updates_keep_what_is_not_given() {
    let tag = KanbanTag { id: 1, project_id: 2, name: "bug".to_string(), color: "1 2% 3%".to_string() };
    let t = tag.updated(&UpdateKanbanTag { name: Some("defect".to_string()), color: None });
    assert_eq!((t.id, t.project_id, t.name.as_str(), t.color.as_str()), (1, 2, "defect", "1 2% 3%"));
    let t = tag.updated(&UpdateKanbanTag { name: None, color: None });
    assert_eq!((t.name.as_str(), t.color.as_str()), ("bug", "1 2% 3%"));
    let u = UpdateTagRequest { name: None, color: Some("4 5% 6%".to_string()) }.to_update();
    assert_eq!((u.name, u.color.as_deref()), (None, Some("4 5% 6%")));
}

#[test]
fn comment_updates() {
    let stored = IssueComment {
        id: 1, issue_id: 2, author_id: Some(3), parent_id: Some(4),
        message: "old".to_string(), created_at: 10u32, updated_at: 11u32,
    };
    let req = UpdateIssueCommentRequest { parent_id: Some(None), message: None };
    assert!(needs_updated_at_refetch(&req));
    let c = final_comment(req, stored, Some(12));
    assert_eq!((c.parent_id, c.message.as_str(), c.updated_at, c.created_at), (None, "old", 12, 10));

    let stored = IssueComment {
        id: 1, issue_id: 2, author_id: Some(3), parent_id: Some(4),
        message: "new".to_string(), created_at: 10u32, updated_at: 13u32,
    };
    let req = UpdateIssueCommentRequest { parent_id: None, message: Some("new".to_string()) };
    assert!(!needs_updated_at_refetch(&req));
    let c = final_comment(req, stored, None);
    assert_eq!((c.parent_id, c.message.as_str(), c.updated_at), (Some(4), "new", 13));
}

#[test]
fn listings_and_bulk() {
    let p = full_listing_page(7);
    assert_eq!((p.total_count, p.limit, p.offset), (7, 7, 0));
    assert_eq!(bulk_txid(0, 99), 0);
    assert_eq!(bulk_txid(2, 99), 99);
    assert_eq!(api_project_organization(None), 0);
    assert_eq!(api_project_organization(Some(5)), 5);
    assert_eq!(local_txid(), 0);
    assert_eq!(bulk_txid(3, local_txid()), 0);
}

#[test]
fn bulk_project_items_are_checked_in_order() {
    let bad = UpdateProjectRequest { name: None, color: Some("blue".to_string()) };
    let good = UpdateProjectRequest { name: Some("x".to_string()), color: Some("1 2% 3%".to_string()) };
    let e = bulk_project_item_check(false, &bad).unwrap_err();
    assert_eq!((e.status(), e.message()), (404, "project not found"));
    let e = bulk_project_item_check(false, &good).unwrap_err();
    assert_eq!((e.status(), e.message()), (404, "project not found"));
    let e = bulk_project_item_check(true, &bad).unwrap_err();
    assert_eq!(e.status(), 400);
    assert!(bulk_project_item_check(true, &good).is_ok());
}

// ---------------------------------------------------------------- first boot and bootstrap

#[test]
fn test_seeds_on_empty_db() {
    let plan = first_boot_plan(0).expect("an empty board is seeded");
    let organizations = [&plan.organization];
    let projects: Vec<_> =
        [&plan.project].into_iter().filter(|p| p.organization_id == plan.organization.id).collect();
    assert_eq!(organizations.len(), 1);
    assert_eq!(projects.len(), 1);
    assert_ne!(plan.project.id, plan.organization.id);
    assert_eq!(uuid::Uuid::from_u128(plan.project.id).get_version_num(), 4);
    assert_eq!(uuid::Uuid::from_u128(plan.organization.id).get_version_num(), 5);
    assert_eq!(plan.project.statuses.len(), 6);
    assert_eq!(plan.project.tags.len(), 4);
    assert_eq!(plan.organization.issue_prefix, "VK");
    assert_eq!(plan.project.issue_counter, 0);
    assert_eq!(plan.organization.name, "My Workspace");
    assert_eq!(plan.organization.slug, "local-workspace");
    assert_eq!(plan.project.name, "Main Project");
    assert_eq!(plan.project.color, "217 91% 60%");
    assert_eq!(plan.project.organization_id, plan.organization.id);
    assert_eq!(
        plan.organization.id,
        uuid::Uuid::new_v5(&uuid::Uuid::NAMESPACE_DNS, b"vibe-kanban-local").as_u128()
    );
}

#[test]
fn test_no_duplicates_on_second_call() {
    let first = first_boot_plan(0).expect("an empty board is seeded");
    let mut organizations: i64 = 0;
    let mut statuses = 0;
    let mut tags = 0;
    organizations += 1;
    statuses += first.project.statuses.len();
    tags += first.project.tags.len();
    assert!(first_boot_plan(organizations).is_none());
    assert_eq!(organizations, 1);
    assert_eq!(statuses, 6);
    assert_eq!(tags, 4);
    let again = first_boot_plan(0).unwrap();
    assert_eq!(again.organization.id, first.organization.id);
}

#[test]
fn default_statuses_in_board_order() {
    let s = default_statuses();
    let names: Vec<&str> = s.iter().map(|x| x.name.as_str()).collect();
    assert_eq!(names, ["Backlog", "To do", "In progress", "In review", "Done", "Cancelled"]);
    let orders: Vec<i32> = s.iter().map(|x| x.sort_order).collect();
    assert_eq!(orders, [0, 1, 2, 3, 4, 5]);
    let hidden: Vec<bool> = s.iter().map(|x| x.hidden).collect();
    assert_eq!(hidden, [true, false, false, false, false, true]);
    let tags = default_tags();
    let t: Vec<(&str, &str)> = tags.iter().map(|x| (x.name.as_str(), x.color.as_str())).collect();
    assert_eq!(
        t,
        [("bug", "355 65% 53%"), ("feature", "124 82% 30%"), ("documentation", "205 100% 40%"), ("enhancement", "181 72% 78%")]
    );
}

#[test]
fn bootstrap_steps() {
    assert_eq!(bootstrap_action(None, None), BootstrapAction::CreateOrganizationAndProject);
    assert_eq!(bootstrap_action(Some(1), None), BootstrapAction::CreateProject { organization_id: 1 });
    assert_eq!(
        bootstrap_action(Some(1), Some(2)),
        BootstrapAction::UseExisting { organization_id: 1, project_id: 2 }
    );
    let o = bootstrap_organization();
    assert_eq!((o.name.as_str(), o.slug.as_str(), o.issue_prefix.as_str()), ("My Workspace", "local", "ISS"));
    let p = bootstrap_project(o.id);
    assert_eq!((p.name.as_str(), p.organization_id, p.statuses.len(), p.tags.len()), ("Initial Project", o.id, 6, 4));
    let l = local_organization();
    assert_eq!((l.slug.as_str(), l.issue_prefix.as_str()), ("local", "VK"));
    for id in [o.id, p.id, l.id] {
        assert_eq!(uuid::Uuid::from_u128(id).get_version_num(), 4);
        assert_eq!(uuid::Uuid::from_u128(id).get_variant(), uuid::Variant::RFC4122);
    }
}

// ---------------------------------------------------------------- tokens

#[test]
fn expiration_claims() {
    assert_eq!(expiration_from_claim(Ok(Some(1_700_000_000))).unwrap(), 1_700_000_000);
    assert_eq!(expiration_from_claim(Ok(Some(8210266876799))).unwrap(), 8210266876799);
    assert!(matches!(expiration_from_claim(Ok(Some(8210266876800))), Err(TokenClaimsError::InvalidExpiration(8210266876800))));
    assert!(matches!(expiration_from_claim(Ok(Some(-8334601228801))), Err(TokenClaimsError::InvalidExpiration(_))));
    assert_eq!(expiration_from_claim(Ok(Some(-8334601228800))).unwrap(), -8334601228800);
    assert!(matches!(expiration_from_claim(Ok(None)), Err(TokenClaimsError::MissingExpiration)));
    let bad = jsonwebtoken::dangerous::insecure_decode::<serde_json::Value>("not a token").unwrap_err();
    assert!(matches!(expiration_from_claim(Err(bad)), Err(TokenClaimsError::Decode(_))));
}

#[test]
fn subject_claims() {
    assert_eq!(subject_from_claim(Ok(Some(P_TEXT.to_string()))).unwrap(), P);
    assert!(matches!(subject_from_claim(Ok(None)), Err(TokenClaimsError::MissingSubject)));
    match subject_from_claim(Ok(Some("bob".to_string()))) {
        Err(TokenClaimsError::InvalidSubject(s)) => assert_eq!(s, "bob"),
        other => panic!("unexpected {:?}", other),
    }
}

#[test]
fn synthetic_token_lasts_a_day() {
    let c = synthetic_claims("user-1", 1000);
    assert_eq!((c.sub.as_str(), c.iat, c.exp), ("user-1", 1000, 87400));
}

#[test]
fn pull_request_states_for_sync() {
    assert_eq!(remote_pr_status(MergeStatus::Open), Some(PullRequestStatus::Open));
    assert_eq!(remote_pr_status(MergeStatus::Merged), Some(PullRequestStatus::Merged));
    assert_eq!(remote_pr_status(MergeStatus::Closed), Some(PullRequestStatus::Closed));
    assert_eq!(remote_pr_status(MergeStatus::Unknown), None);
}

#[test]
fn update_requests_validate_their_colour() {
    assert!(UpdateTagRequest { name: Some("x".to_string()), color: None }.check().is_ok());
    assert!(UpdateTagRequest { name: None, color: Some("0 0% 0%".to_string()) }.check().is_ok());
    assert_eq!(UpdateTagRequest { name: None, color: Some("0 0%".to_string()) }.check().unwrap_err().status(), 400);
    assert!(UpdateProjectRequest { name: None, color: Some("360 100% 100%".to_string()) }.check().is_ok());
    assert!(UpdateProjectRequest { name: None, color: Some("361 100% 100%".to_string()) }.check().is_err());
    let r = UpdateProjectStatusRequest { name: None, color: Some("#ff0000".to_string()), sort_order: Some(1), hidden: None };
    let e = r.check().unwrap_err();
    assert_eq!((e.status(), e.message()), (400, "Invalid color format. Expected HSL format: 'H S% L%'"));
    assert!(UpdateProjectStatusRequest { name: None, color: None, sort_order: None, hidden: Some(true) }.check().is_ok());
}
