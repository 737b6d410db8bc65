//! Kinds of links between two issues and their textual form in the store.

use vstd::prelude::*;
use crate::text::str_eq;

verus! {

/// How one issue relates to another.
#[derive(Clone, Copy, Debug, PartialEq, Eq, Structural)]
pub enum IssueRelationshipType {
    Blocking,
    Related,
    HasDuplicate,
}

/// The word under which a relationship type is stored.
pub open spec fn relationship_text(t: IssueRelationshipType) -> Seq<char> {
    match t {
        IssueRelationshipType::Blocking => "blocking"@,
        IssueRelationshipType::Related => "related"@,
        IssueRelationshipType::HasDuplicate => "has_duplicate"@,
    }
}

/// How a stored word is read back: `"related"` and `"has_duplicate"` name their
/// types, every other word is read as blocking.
pub open spec fn relationship_from_text(s: Seq<char>) -> IssueRelationshipType {
    if s == "related"@ {
        IssueRelationshipType::Related
    } else if s == "has_duplicate"@ {
        IssueRelationshipType::HasDuplicate
    } else {
        IssueRelationshipType::Blocking
    }
}

/// The stored word for a relationship type.
pub fn relationship_type_to_str(t: &IssueRelationshipType) -> (s: &'static str)
    ensures
        s@ == relationship_text(*t),
{
    match t {
        IssueRelationshipType::Blocking => "blocking",
        IssueRelationshipType::Related => "related",
        IssueRelationshipType::HasDuplicate => "has_duplicate",
    }
}

/// Reads a stored word back as a relationship type (unknown words: blocking).
pub fn parse_relationship_type(s: &str) -> (t: IssueRelationshipType)
    ensures
        t == relationship_from_text(s@),
{
    if str_eq(s, "related") {
        IssueRelationshipType::Related
    } else if str_eq(s, "has_duplicate") {
        IssueRelationshipType::HasDuplicate
    } else {
        IssueRelationshipType::Blocking
    }
}

/// Every relationship type is read back from its own word.
pub proof fn lemma_relationship_round_trip(t: IssueRelationshipType)
    ensures
        relationship_from_text(relationship_text(t)) == t,
{
    reveal_strlit("blocking");
    reveal_strlit("related");
    reveal_strlit("has_duplicate");
    assert("blocking"@.len() == 8 && "related"@.len() == 7 && "has_duplicate"@.len() == 13);
}

/// Reading a word and writing the type back gives the word again exactly when
/// the word is one of the three stored words.
pub proof fn lemma_relationship_text_canonical(s: Seq<char>)
    ensures
        (relationship_text(relationship_from_text(s)) == s) <==> (s == "blocking"@ || s
            == "related"@ || s == "has_duplicate"@),
{
    reveal_strlit("blocking");
    reveal_strlit("related");
    reveal_strlit("has_duplicate");
    assert("blocking"@.len() == 8 && "related"@.len() == 7 && "has_duplicate"@.len() == 13);
}

} // verus!
