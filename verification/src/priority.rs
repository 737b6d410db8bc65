//! Issue priorities and their textual form in the store.

use vstd::prelude::*;
use crate::text::str_eq;

verus! {

/// How urgent an issue is.
#[derive(Clone, Copy, Debug, PartialEq, Eq, Structural)]
pub enum IssuePriority {
    Urgent,
    High,
    Medium,
    Low,
}

/// The word under which a priority is stored.
pub open spec fn priority_text(p: IssuePriority) -> Seq<char> {
    match p {
        IssuePriority::Urgent => "urgent"@,
        IssuePriority::High => "high"@,
        IssuePriority::Medium => "medium"@,
        IssuePriority::Low => "low"@,
    }
}

/// The priority that a stored word names, if any.
pub open spec fn priority_from_text(s: Seq<char>) -> Option<IssuePriority> {
    if s == "urgent"@ {
        Some(IssuePriority::Urgent)
    } else if s == "high"@ {
        Some(IssuePriority::High)
    } else if s == "medium"@ {
        Some(IssuePriority::Medium)
    } else if s == "low"@ {
        Some(IssuePriority::Low)
    } else {
        None
    }
}

/// The priority an issue gets when none is given.
pub open spec fn default_priority_text() -> Seq<char> {
    "medium"@
}

/// The word stored for an issue whose priority was cleared: the empty word,
/// which names no priority.
pub open spec fn cleared_priority_text() -> Seq<char> {
    Seq::<char>::empty()
}

/// A cleared priority reads back as no priority.
pub proof fn lemma_cleared_priority_reads_none()
    ensures
        priority_from_text(cleared_priority_text()) is None,
{
    reveal_strlit("urgent");
    reveal_strlit("high");
    reveal_strlit("medium");
    reveal_strlit("low");
    assert("urgent"@.len() == 6 && "high"@.len() == 4 && "medium"@.len() == 6 && "low"@.len() == 3);
}

impl IssuePriority {
    /// The stored word for this priority.
    pub fn as_str(&self) -> (s: &'static str)
        ensures
            s@ == priority_text(*self),
    {
        match self {
            IssuePriority::Urgent => "urgent",
            IssuePriority::High => "high",
            IssuePriority::Medium => "medium",
            IssuePriority::Low => "low",
        }
    }

    /// Reads a stored word back as a priority; any other word gives `None`.
    pub fn parse(s: &str) -> (r: Option<IssuePriority>)
        ensures
            r == priority_from_text(s@),
    {
        if str_eq(s, "urgent") {
            Some(IssuePriority::Urgent)
        } else if str_eq(s, "high") {
            Some(IssuePriority::High)
        } else if str_eq(s, "medium") {
            Some(IssuePriority::Medium)
        } else if str_eq(s, "low") {
            Some(IssuePriority::Low)
        } else {
            None
        }
    }
}

/// Turns the tri-state priority of an update request into the words handed to
/// the store: field absent, field cleared, or field set to a priority's word.
pub fn priority_to_str(p: &Option<Option<IssuePriority>>) -> (r: Option<Option<&'static str>>)
    ensures
        r is None <==> p is None,
        p matches Some(inner) ==> (r matches Some(rs) && (rs is None <==> inner is None)),
        p matches Some(Some(q)) ==> (r matches Some(Some(w)) && w@ == priority_text(*q)),
{
    match p {
        None => None,
        Some(None) => Some(None),
        Some(Some(q)) => Some(Some(q.as_str())),
    }
}

/// The stored priority of a new issue: the given word, or `"medium"`.
pub fn create_priority_text(priority: Option<&str>) -> (r: String)
    ensures
        r@ == match priority {
            Some(w) => w@,
            None => default_priority_text(),
        },
{
    match priority {
        Some(w) => crate::text::owned(w),
        None => crate::text::owned("medium"),
    }
}

/// Every priority is read back from its own word.
pub proof fn lemma_priority_round_trip(p: IssuePriority)
    ensures
        priority_from_text(priority_text(p)) == Some(p),
{
    reveal_strlit("urgent");
    reveal_strlit("high");
    reveal_strlit("medium");
    reveal_strlit("low");
    assert("urgent"@.len() == 6 && "high"@.len() == 4 && "medium"@.len() == 6 && "low"@.len() == 3);
    assert("urgent"@[0] == 'u' && "medium"@[0] == 'm');
    assert("urgent"@ != "medium"@);
}

/// Distinct priorities are stored under distinct words.
pub proof fn lemma_priority_text_injective(p: IssuePriority, q: IssuePriority)
    requires
        priority_text(p) == priority_text(q),
    ensures
        p == q,
{
    lemma_priority_round_trip(p);
    lemma_priority_round_trip(q);
}

} // verus!
