//! Moving an issue along the board when its workspace is linked, gets a pull
//! request, or is merged.

use vstd::prelude::*;
use crate::text::str_eq;

verus! {

/// What `str::to_lowercase` gives for a text (full Unicode lower-casing).
pub uninterp spec fn lowercase(s: Seq<char>) -> Seq<char>;

/// `str::to_lowercase`. Trusted: the result is the named result `lowercase`.
#[verifier::external_body]
pub(crate) fn to_lowercase(s: &str) -> (r: String)
    ensures
        r@ == lowercase(s@),
{
    s.to_lowercase()
}

/// The board stage an event moves an issue to.
#[derive(Clone, Copy, Debug, PartialEq, Eq, Structural)]
pub enum WorkflowStage {
    /// A workspace was linked to the issue.
    InProgress,
    /// A pull request was opened for the issue's workspace.
    InReview,
    /// The issue's workspace was merged.
    Done,
}

/// The lower-cased name of the status a stage moves issues to.
pub open spec fn stage_status_name(stage: WorkflowStage) -> Seq<char> {
    match stage {
        WorkflowStage::InProgress => "in progress"@,
        WorkflowStage::InReview => "in review"@,
        WorkflowStage::Done => "done"@,
    }
}

impl WorkflowStage {
    /// The lower-cased name of the project status this stage moves issues to.
    pub fn status_name(&self) -> (s: &'static str)
        ensures
            s@ == stage_status_name(*self),
    {
        match self {
            WorkflowStage::InProgress => "in progress",
            WorkflowStage::InReview => "in review",
            WorkflowStage::Done => "done",
        }
    }
}

/// Whether an issue whose status has the lower-cased name `s` moves to
/// "In progress": only from "backlog" or "to do".
pub open spec fn moves_to_in_progress(s: Seq<char>) -> bool {
    s == "backlog"@ || s == "to do"@
}

/// Whether an issue whose status has the lower-cased name `s` moves to
/// "In review": from "to do", "backlog" or "in progress".
pub open spec fn moves_to_in_review(s: Seq<char>) -> bool {
    s == "to do"@ || s == "backlog"@ || s == "in progress"@
}

/// The status an issue moves to, if any: the stage's status of the project when
/// it exists and, except for "Done", the issue's current status (by lower-cased
/// name) is one the stage moves from.
pub open spec fn auto_move_target(
    stage: WorkflowStage,
    stage_status: Option<u128>,
    current_lower: Option<Seq<char>>,
) -> Option<u128> {
    match stage_status {
        None => None,
        Some(t) => match stage {
            WorkflowStage::Done => Some(t),
            WorkflowStage::InProgress => match current_lower {
                Some(c) => if moves_to_in_progress(c) {
                    Some(t)
                } else {
                    None
                },
                None => None,
            },
            WorkflowStage::InReview => match current_lower {
                Some(c) => if moves_to_in_review(c) {
                    Some(t)
                } else {
                    None
                },
                None => None,
            },
        },
    }
}

/// Whether a lower-cased status name moves to "In progress".
pub fn in_progress_applies(current_lower: &str) -> (b: bool)
    ensures
        b == moves_to_in_progress(current_lower@),
{
    str_eq(current_lower, "backlog") || str_eq(current_lower, "to do")
}

/// Whether a lower-cased status name moves to "In review".
pub fn in_review_applies(current_lower: &str) -> (b: bool)
    ensures
        b == moves_to_in_review(current_lower@),
{
    str_eq(current_lower, "to do") || str_eq(current_lower, "backlog") || str_eq(
        current_lower,
        "in progress",
    )
}

/// Decides an automatic move from the lower-cased name of the issue's current
/// status (if the issue has one) and the project's status for the stage.
pub fn decide_auto_move_lowered(
    stage: WorkflowStage,
    stage_status: Option<u128>,
    current_lower: Option<&str>,
) -> (r: Option<u128>)
    ensures
        r == auto_move_target(
            stage,
            stage_status,
            match current_lower {
                Some(c) => Some(c@),
                None => None,
            },
        ),
{
    match stage_status {
        None => None,
        Some(t) => match stage {
            WorkflowStage::Done => Some(t),
            WorkflowStage::InProgress => match current_lower {
                Some(c) => if in_progress_applies(c) {
                    Some(t)
                } else {
                    None
                },
                None => None,
            },
            WorkflowStage::InReview => match current_lower {
                Some(c) => if in_review_applies(c) {
                    Some(t)
                } else {
                    None
                },
                None => None,
            },
        },
    }
}

/// Decides an automatic move from the name of the issue's current status (if
/// the issue has one) and the project's status for the stage; the name is
/// compared after `str::to_lowercase`.
pub fn decide_auto_move(stage: WorkflowStage, stage_status: Option<u128>, current_name: Option<&str>) -> (r:
    Option<u128>)
    ensures
        r == auto_move_target(
            stage,
            stage_status,
            match current_name {
                Some(c) => Some(lowercase(c@)),
                None => None,
            },
        ),
{
    match current_name {
        Some(c) => {
            let lower = to_lowercase(c);
            decide_auto_move_lowered(stage, stage_status, Some(lower.as_str()))
        },
        None => decide_auto_move_lowered(stage, stage_status, None),
    }
}

/// The merge state of a local pull request.
#[derive(Clone, Copy, Debug, PartialEq, Eq, Structural)]
pub enum MergeStatus {
    Open,
    Merged,
    Closed,
    Unknown,
}

/// The state of a pull request as the remote service records it.
#[derive(Clone, Copy, Debug, PartialEq, Eq, Structural)]
pub enum PullRequestStatus {
    Open,
    Merged,
    Closed,
}

pub open spec fn remote_pr_status_spec(m: MergeStatus) -> Option<PullRequestStatus> {
    match m {
        MergeStatus::Open => Some(PullRequestStatus::Open),
        MergeStatus::Merged => Some(PullRequestStatus::Merged),
        MergeStatus::Closed => Some(PullRequestStatus::Closed),
        MergeStatus::Unknown => None,
    }
}

/// The remote state under which a local pull request is synchronised when its
/// workspace is linked; pull requests of unknown state are not synchronised.
pub fn remote_pr_status(m: MergeStatus) -> (r: Option<PullRequestStatus>)
    ensures
        r == remote_pr_status_spec(m),
{
    match m {
        MergeStatus::Open => Some(PullRequestStatus::Open),
        MergeStatus::Merged => Some(PullRequestStatus::Merged),
        MergeStatus::Closed => Some(PullRequestStatus::Closed),
        MergeStatus::Unknown => None,
    }
}

/// What each stage does, given the project's status `t` for it and the issue's
/// current status `c` (lower-cased): a linked workspace moves an issue in
/// "backlog" or "to do" to `t`; an opened pull request moves an issue in
/// "backlog", "to do" or "in progress" to `t`; a merge always moves it to `t`;
/// every other case leaves it where it is, and without a status for the stage
/// nothing moves.
pub proof fn lemma_auto_move_decisions(stage: WorkflowStage, t: u128, c: Seq<char>, cur: Option<Seq<char>>)
    ensures
        auto_move_target(WorkflowStage::InProgress, Some(t), Some(c)) == if c == "backlog"@ || c
            == "to do"@ {
            Some(t)
        } else {
            None
        },
        auto_move_target(WorkflowStage::InReview, Some(t), Some(c)) == if c == "backlog"@ || c
            == "to do"@ || c == "in progress"@ {
            Some(t)
        } else {
            None
        },
        auto_move_target(WorkflowStage::Done, Some(t), cur) == Some(t),
        auto_move_target(stage, None, cur) is None,
        stage != WorkflowStage::Done ==> auto_move_target(stage, Some(t), None) is None,
{
}

/// The workflow only moves forward: every status that moves to "In progress"
/// also moves to "In review"; neither stage moves an issue that is already in
/// the stage's own status; and a done issue is never moved back by either.
pub proof fn lemma_workflow_moves_forward(s: Seq<char>)
    ensures
        moves_to_in_progress(s) ==> moves_to_in_review(s),
        !moves_to_in_progress(stage_status_name(WorkflowStage::InProgress)),
        !moves_to_in_review(stage_status_name(WorkflowStage::InReview)),
        !moves_to_in_progress(stage_status_name(WorkflowStage::Done)),
        !moves_to_in_review(stage_status_name(WorkflowStage::Done)),
{
    reveal_strlit("backlog");
    reveal_strlit("to do");
    reveal_strlit("in progress");
    reveal_strlit("in review");
    reveal_strlit("done");
    assert("backlog"@.len() == 7 && "to do"@.len() == 5 && "in progress"@.len() == 11
        && "in review"@.len() == 9 && "done"@.len() == 4);
}

} // verus!
