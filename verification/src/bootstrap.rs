//! The data a fresh local board starts with, and the first-boot decisions.

use vstd::prelude::*;
use crate::ids::{is_rfc4122_version, new_random_id, uuid_v5_dns, uuid_v5_in_dns_namespace};
use crate::text::owned;

verus! {

/// A status that a new project starts with.
pub struct StatusSeed {
    pub name: String,
    pub color: String,
    pub sort_order: i32,
    pub hidden: bool,
}

/// A tag that a new project starts with.
pub struct TagSeed {
    pub name: String,
    pub color: String,
}

/// An organisation to create.
pub struct OrganizationSeed {
    pub id: u128,
    pub name: String,
    pub slug: String,
    pub issue_prefix: String,
}

/// A project to create, with its starting statuses and tags.
pub struct ProjectSeed {
    pub id: u128,
    pub organization_id: u128,
    pub name: String,
    pub color: String,
    pub issue_counter: i32,
    pub statuses: Vec<StatusSeed>,
    pub tags: Vec<TagSeed>,
}

/// Everything the first boot of an empty board creates.
pub struct FirstBootPlan {
    pub organization: OrganizationSeed,
    pub project: ProjectSeed,
}

pub open spec fn status_view(s: StatusSeed) -> (Seq<char>, Seq<char>, i32, bool) {
    (s.name@, s.color@, s.sort_order, s.hidden)
}

pub open spec fn tag_view(t: TagSeed) -> (Seq<char>, Seq<char>) {
    (t.name@, t.color@)
}

/// The six statuses of a new project, in board order; "Backlog" and "Cancelled"
/// are hidden.
pub open spec fn default_status_views() -> Seq<(Seq<char>, Seq<char>, i32, bool)> {
    seq![
        ("Backlog"@, "220 9% 46%"@, 0i32, true),
        ("To do"@, "217 91% 60%"@, 1i32, false),
        ("In progress"@, "38 92% 50%"@, 2i32, false),
        ("In review"@, "258 90% 66%"@, 3i32, false),
        ("Done"@, "142 71% 45%"@, 4i32, false),
        ("Cancelled"@, "0 84% 60%"@, 5i32, true),
    ]
}

/// The four tags of a new project.
pub open spec fn default_tag_views() -> Seq<(Seq<char>, Seq<char>)> {
    seq![
        ("bug"@, "355 65% 53%"@),
        ("feature"@, "124 82% 30%"@),
        ("documentation"@, "205 100% 40%"@),
        ("enhancement"@, "181 72% 78%"@),
    ]
}

pub open spec fn statuses_are_default(v: Seq<StatusSeed>) -> bool {
    v.map_values(|s: StatusSeed| status_view(s)) == default_status_views()
}

pub open spec fn tags_are_default(v: Seq<TagSeed>) -> bool {
    v.map_values(|t: TagSeed| tag_view(t)) == default_tag_views()
}

fn status(name: &str, color: &str, sort_order: i32, hidden: bool) -> (s: StatusSeed)
    ensures
        status_view(s) == (name@, color@, sort_order, hidden),
{
    StatusSeed { name: owned(name), color: owned(color), sort_order, hidden }
}

fn tag(name: &str, color: &str) -> (t: TagSeed)
    ensures
        tag_view(t) == (name@, color@),
{
    TagSeed { name: owned(name), color: owned(color) }
}

/// The statuses every new project starts with.
pub fn default_statuses() -> (v: Vec<StatusSeed>)
    ensures
        statuses_are_default(v@),
{
    let mut v: Vec<StatusSeed> = Vec::new();
    v.push(status("Backlog", "220 9% 46%", 0, true));
    v.push(status("To do", "217 91% 60%", 1, false));
    v.push(status("In progress", "38 92% 50%", 2, false));
    v.push(status("In review", "258 90% 66%", 3, false));
    v.push(status("Done", "142 71% 45%", 4, false));
    v.push(status("Cancelled", "0 84% 60%", 5, true));
    assert(v@.map_values(|s: StatusSeed| status_view(s)) =~= default_status_views());
    v
}

/// The tags every new project starts with.
pub fn default_tags() -> (v: Vec<TagSeed>)
    ensures
        tags_are_default(v@),
{
    let mut v: Vec<TagSeed> = Vec::new();
    v.push(tag("bug", "355 65% 53%"));
    v.push(tag("feature", "124 82% 30%"));
    v.push(tag("documentation", "205 100% 40%"));
    v.push(tag("enhancement", "181 72% 78%"));
    assert(v@.map_values(|t: TagSeed| tag_view(t)) =~= default_tag_views());
    v
}

/// The seeded statuses are six, in board order (sort orders 0 to 5), no two with
/// the same name or the same colour; only "Backlog" and "Cancelled" are hidden.
pub proof fn lemma_default_statuses_distinct(v: Seq<StatusSeed>)
    requires
        statuses_are_default(v),
    ensures
        v.len() == 6,
        forall|i: int| 0 <= i < 6 ==> #[trigger] v[i].sort_order == i,
        forall|i: int, j: int|
            0 <= i < j < 6 ==> v[i].color@ != v[j].color@ && v[i].name@ != v[j].name@,
        forall|i: int|
            0 <= i < 6 ==> (#[trigger] v[i].hidden <==> (v[i].name@ == "Backlog"@ || v[i].name@
                == "Cancelled"@)),
{
    let w = default_status_views();
    assert(v.map_values(|s: StatusSeed| status_view(s)) == w);
    assert(v.len() == 6);
    assert forall|i: int| 0 <= i < 6 implies status_view(#[trigger] v[i]) == w[i] by {
        assert(v.map_values(|s: StatusSeed| status_view(s))[i] == status_view(v[i]));
    }
    reveal_strlit("Backlog");
    reveal_strlit("To do");
    reveal_strlit("In progress");
    reveal_strlit("In review");
    reveal_strlit("Done");
    reveal_strlit("Cancelled");
    reveal_strlit("220 9% 46%");
    reveal_strlit("217 91% 60%");
    reveal_strlit("38 92% 50%");
    reveal_strlit("258 90% 66%");
    reveal_strlit("142 71% 45%");
    reveal_strlit("0 84% 60%");
    let names = seq!["Backlog"@, "To do"@, "In progress"@, "In review"@, "Done"@, "Cancelled"@];
    let colors = seq!["220 9% 46%"@, "217 91% 60%"@, "38 92% 50%"@, "258 90% 66%"@, "142 71% 45%"@, "0 84% 60%"@];
    assert forall|i: int| 0 <= i < 6 implies v[i].name@ == #[trigger] names[i] && v[i].color@ == colors[i] by {
        assert(status_view(v[i]) == w[i]);
    }
    assert forall|i: int| 0 <= i < 6 implies #[trigger] v[i].sort_order == i by {
        assert(status_view(v[i]) == w[i]);
    }
    assert forall|i: int| 0 <= i < 6 implies (#[trigger] v[i].hidden <==> (v[i].name@ == "Backlog"@
        || v[i].name@ == "Cancelled"@)) by {
        assert(status_view(v[i]) == w[i]);
        assert(v[i].name@ == names[i]);
        if i == 0 || i == 5 {
        } else {
            assert(names[i] != "Backlog"@ && names[i] != "Cancelled"@) by {
                assert(names[i].len() == 7 ==> names[i][0] != 'B');
                assert(names[i].len() == 9 ==> names[i][0] != 'C');
            }
        }
    }
    assert forall|i: int, j: int| 0 <= i < j < 6 implies v[i].color@ != v[j].color@ && v[i].name@
        != v[j].name@ by {
        assert(v[i].name@ == names[i] && v[i].color@ == colors[i]);
        assert(v[j].name@ == names[j] && v[j].color@ == colors[j]);
        assert(names[i].len() != names[j].len() || names[i][0] != names[j][0]);
        assert(colors[i].len() != colors[j].len() || colors[i][0] != colors[j][0] || colors[i][1]
            != colors[j][1]);
    }
}

/// The seeded tags are four, no two with the same name or the same colour.
pub proof fn lemma_default_tags_distinct(v: Seq<TagSeed>)
    requires
        tags_are_default(v),
    ensures
        v.len() == 4,
        forall|i: int, j: int|
            0 <= i < j < 4 ==> v[i].color@ != v[j].color@ && v[i].name@ != v[j].name@,
{
    let w = default_tag_views();
    assert(v.map_values(|t: TagSeed| tag_view(t)) == w);
    assert(v.len() == 4);
    reveal_strlit("bug");
    reveal_strlit("feature");
    reveal_strlit("documentation");
    reveal_strlit("enhancement");
    reveal_strlit("355 65% 53%");
    reveal_strlit("124 82% 30%");
    reveal_strlit("205 100% 40%");
    reveal_strlit("181 72% 78%");
    let names = seq!["bug"@, "feature"@, "documentation"@, "enhancement"@];
    let colors = seq!["355 65% 53%"@, "124 82% 30%"@, "205 100% 40%"@, "181 72% 78%"@];
    assert forall|i: int| 0 <= i < 4 implies v[i].name@ == #[trigger] names[i] && v[i].color@ == colors[i] by {
        assert(v.map_values(|t: TagSeed| tag_view(t))[i] == tag_view(v[i]));
        assert(tag_view(v[i]) == w[i]);
    }
    assert forall|i: int, j: int| 0 <= i < j < 4 implies v[i].color@ != v[j].color@ && v[i].name@
        != v[j].name@ by {
        assert(v[i].name@ == names[i] && v[i].color@ == colors[i]);
        assert(v[j].name@ == names[j] && v[j].color@ == colors[j]);
        assert(names[i].len() != names[j].len());
        assert(colors[i].len() != colors[j].len() || colors[i][0] != colors[j][0] || colors[i][1]
            != colors[j][1]);
    }
}

/// The name from which the first-boot organisation's identifier is derived.
pub open spec fn local_namespace_name() -> Seq<char> {
    "vibe-kanban-local"@
}

/// What the first boot of a board with `organization_count` organisations
/// creates: nothing when there is any organisation; otherwise the organisation
/// "My Workspace" (slug "local-workspace", prefix "VK", identifier derived from
/// "vibe-kanban-local", a version-5 UUID) and its "Main Project" with a fresh
/// version-4 identifier, issue counter 0 and the default statuses and tags.
pub open spec fn is_first_boot_plan(organization_count: int, plan: Option<FirstBootPlan>) -> bool {
    if organization_count > 0 {
        plan is None
    } else {
        plan matches Some(p) && {
            &&& p.organization.id == uuid_v5_dns(local_namespace_name())
            &&& is_rfc4122_version(p.organization.id, 5)
            &&& is_rfc4122_version(p.project.id, 4)
            &&& p.project.id != p.organization.id
            &&& p.organization.name@ == "My Workspace"@
            &&& p.organization.slug@ == "local-workspace"@
            &&& p.organization.issue_prefix@ == "VK"@
            &&& p.project.organization_id == p.organization.id
            &&& p.project.name@ == "Main Project"@
            &&& p.project.color@ == "217 91% 60%"@
            &&& p.project.issue_counter == 0
            &&& statuses_are_default(p.project.statuses@)
            &&& tags_are_default(p.project.tags@)
        }
    }
}

/// Plans the first boot of the board from the number of organisations it holds.
pub fn first_boot_plan(organization_count: i64) -> (plan: Option<FirstBootPlan>)
    ensures
        is_first_boot_plan(organization_count as int, plan),
{
    if organization_count > 0 {
        return None;
    }
    let org_id = uuid_v5_in_dns_namespace("vibe-kanban-local");
    let organization = OrganizationSeed {
        id: org_id,
        name: owned("My Workspace"),
        slug: owned("local-workspace"),
        issue_prefix: owned("VK"),
    };
    let project = ProjectSeed {
        id: new_random_id(),
        organization_id: org_id,
        name: owned("Main Project"),
        color: owned("217 91% 60%"),
        issue_counter: 0,
        statuses: default_statuses(),
        tags: default_tags(),
    };
    Some(FirstBootPlan { organization, project })
}

/// The number of organisations after a first boot that found `count`.
pub open spec fn organizations_after_first_boot(count: int) -> int {
    if count > 0 {
        count
    } else {
        count + 1
    }
}

/// First boot is idempotent: a board that one first boot has seeded is left as
/// it is by the next, so running it twice seeds once.
pub proof fn lemma_first_boot_idempotent(count: int, second: Option<FirstBootPlan>)
    requires
        count >= 0,
        is_first_boot_plan(organizations_after_first_boot(count), second),
    ensures
        second is None,
        organizations_after_first_boot(organizations_after_first_boot(count))
            == organizations_after_first_boot(count),
{
}

/// The organisation that bootstrapping creates when there is none: "My
/// Workspace", slug "local", prefix "ISS", with a fresh version-4 identifier.
pub fn bootstrap_organization() -> (o: OrganizationSeed)
    ensures
        is_rfc4122_version(o.id, 4),
        o.name@ == "My Workspace"@,
        o.slug@ == "local"@,
        o.issue_prefix@ == "ISS"@,
{
    OrganizationSeed {
        id: new_random_id(),
        name: owned("My Workspace"),
        slug: owned("local"),
        issue_prefix: owned("ISS"),
    }
}

/// The project that bootstrapping creates in an organisation without one:
/// "Initial Project" with the default statuses and tags and a fresh version-4
/// identifier.
pub fn bootstrap_project(organization_id: u128) -> (p: ProjectSeed)
    ensures
        is_rfc4122_version(p.id, 4),
        p.organization_id == organization_id,
        p.name@ == "Initial Project"@,
        p.color@ == "217 91% 60%"@,
        p.issue_counter == 0,
        statuses_are_default(p.statuses@),
        tags_are_default(p.tags@),
{
    ProjectSeed {
        id: new_random_id(),
        organization_id,
        name: owned("Initial Project"),
        color: owned("217 91% 60%"),
        issue_counter: 0,
        statuses: default_statuses(),
        tags: default_tags(),
    }
}

/// The organisation that stands for local use when none has the slug "local":
/// "My Workspace", slug "local", prefix "VK", not personal, fresh version-4
/// identifier.
pub fn local_organization() -> (o: OrganizationSeed)
    ensures
        is_rfc4122_version(o.id, 4),
        o.name@ == "My Workspace"@,
        o.slug@ == "local"@,
        o.issue_prefix@ == "VK"@,
{
    OrganizationSeed {
        id: new_random_id(),
        name: owned("My Workspace"),
        slug: owned("local"),
        issue_prefix: owned("VK"),
    }
}

/// What bootstrapping does, given the first organisation (if any) and the
/// first project of that organisation (if any).
#[derive(Clone, Copy, Debug, PartialEq, Eq, Structural)]
pub enum BootstrapAction {
    /// Both exist: use them.
    UseExisting { organization_id: u128, project_id: u128 },
    /// The organisation has no project: create the default one in it.
    CreateProject { organization_id: u128 },
    /// There is no organisation: create it and its default project.
    CreateOrganizationAndProject,
}

pub open spec fn bootstrap_action_spec(first_org: Option<u128>, first_project: Option<u128>) -> BootstrapAction {
    match first_org {
        None => BootstrapAction::CreateOrganizationAndProject,
        Some(o) => match first_project {
            Some(p) => BootstrapAction::UseExisting { organization_id: o, project_id: p },
            None => BootstrapAction::CreateProject { organization_id: o },
        },
    }
}

/// Decides the bootstrap step from what the store holds.
pub fn bootstrap_action(first_org: Option<u128>, first_project: Option<u128>) -> (a: BootstrapAction)
    ensures
        a == bootstrap_action_spec(first_org, first_project),
{
    match first_org {
        None => BootstrapAction::CreateOrganizationAndProject,
        Some(o) => match first_project {
            Some(p) => BootstrapAction::UseExisting { organization_id: o, project_id: p },
            None => BootstrapAction::CreateProject { organization_id: o },
        },
    }
}

/// Bootstrapping never creates a second organisation or a second default project:
/// once both exist it only uses them.
pub proof fn lemma_bootstrap_stable(o: u128, p: u128)
    ensures
        bootstrap_action_spec(Some(o), Some(p)) == (BootstrapAction::UseExisting {
            organization_id: o,
            project_id: p,
        }),
{
}

} // verus!
