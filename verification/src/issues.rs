//! Issue bookkeeping that does not need the store: short identifiers, the
//! meaning of update requests, and moves to a named status.

use vstd::prelude::*;
use crate::priority::{cleared_priority_text, lemma_cleared_priority_reads_none, priority_from_text};
use crate::text::{owned, push_signed_decimal, signed_decimal};

verus! {

/// The prefix used when the project's organisation has none.
pub open spec fn fallback_prefix() -> Seq<char> {
    "VK"@
}

pub open spec fn opt_str_view(o: Option<&str>) -> Option<Seq<char>> {
    match o {
        Some(s) => Some(s@),
        None => None,
    }
}

/// The short identifier of an issue: the organisation's prefix (or `"VK"`), a
/// hyphen, and the issue's number, e.g. `"KMM-178"`.
pub open spec fn simple_id_text(prefix: Option<Seq<char>>, issue_number: int) -> Seq<char> {
    (match prefix {
        Some(p) => p,
        None => fallback_prefix(),
    }) + "-"@ + signed_decimal(issue_number)
}

/// Builds the short identifier of an issue.
pub fn simple_id(prefix: Option<&str>, issue_number: i32) -> (s: String)
    ensures
        s@ == simple_id_text(opt_str_view(prefix), issue_number as int),
{
    let mut s = match prefix {
        Some(p) => owned(p),
        None => owned("VK"),
    };
    s.append("-");
    push_signed_decimal(&mut s, issue_number as i64);
    s
}

/// What an update does to an optional field, from the three-way request value
/// (`None`: leave it; `Some(None)`: clear it; `Some(Some(v))`: set it): whether
/// to write, and what.
pub fn field_update<T>(o: Option<Option<T>>) -> (r: (bool, Option<T>))
    ensures
        r.0 <==> o is Some,
        o is None ==> r.1 is None,
        o matches Some(v) ==> r.1 == v,
{
    match o {
        None => (false, None),
        Some(v) => (true, v),
    }
}

/// What an update does to an issue's priority: whether to write, and the word to
/// write. Clearing the priority writes the empty word, which reads back as no
/// priority; when the priority is left alone nothing is written.
pub fn priority_update(p: Option<Option<&str>>) -> (r: (bool, String))
    ensures
        r.0 <==> p is Some,
        p matches Some(Some(w)) ==> r.1@ == w@,
        !(p matches Some(Some(_))) ==> r.1@ == cleared_priority_text(),
        p matches Some(None) ==> priority_from_text(r.1@) is None,
{
    proof { lemma_cleared_priority_reads_none(); }
    match p {
        None => (false, String::new()),
        Some(None) => (true, String::new()),
        Some(Some(w)) => (true, owned(w)),
    }
}

/// The result of asking to move an issue to a status named for its project.
#[derive(Clone, Copy, Debug, PartialEq, Eq, Structural)]
pub enum NamedStatusMove {
    /// There is no such issue.
    IssueMissing,
    /// The issue stays as it is (no such status, or already in it).
    Unchanged,
    /// The issue's status becomes the given one.
    MoveTo(u128),
}

pub open spec fn named_status_move(current_status: Option<u128>, target: Option<u128>) -> NamedStatusMove {
    match current_status {
        None => NamedStatusMove::IssueMissing,
        Some(cur) => match target {
            None => NamedStatusMove::Unchanged,
            Some(t) => if t == cur {
                NamedStatusMove::Unchanged
            } else {
                NamedStatusMove::MoveTo(t)
            },
        },
    }
}

/// Decides a move to a named status from the issue's current status (if the
/// issue exists) and the named status of its project (if there is one).
pub fn decide_named_status_move(current_status: Option<u128>, target: Option<u128>) -> (m:
    NamedStatusMove)
    ensures
        m == named_status_move(current_status, target),
{
    match current_status {
        None => NamedStatusMove::IssueMissing,
        Some(cur) => match target {
            None => NamedStatusMove::Unchanged,
            Some(t) => if t == cur {
                NamedStatusMove::Unchanged
            } else {
                NamedStatusMove::MoveTo(t)
            },
        },
    }
}

/// Moving to a named status is idempotent: once an issue has been moved, asking
/// for the same status again leaves it where it is.
pub proof fn lemma_named_status_move_idempotent(current: u128, target: Option<u128>)
    ensures
        named_status_move(Some(current), target) matches NamedStatusMove::MoveTo(t) ==> named_status_move(
            Some(t),
            target,
        ) == NamedStatusMove::Unchanged,
{
}

} // verus!
