//! Relations between issues: creating one from a direction flag, and reading
//! the relations of an issue from its own side.

use vstd::prelude::*;
use crate::entities::IssueSlim;
use crate::error::CliError;
use crate::text::str_eq;

verus! {

/// A relation as the API returns it: `issue` is its source, `related_issue`
/// its target.
#[derive(Debug, Clone, PartialEq, Eq)]
pub struct IssueRelation {
    pub id: String,
    /// `blocks`, `duplicate`, `related` or `similar`.
    pub relation_type: String,
    pub created_at: String,
    pub updated_at: String,
    pub issue: IssueSlim,
    pub related_issue: IssueSlim,
}

/// A relation seen from one of its issues, so the direction reads naturally
/// (e.g. "blocked by" rather than raw "blocks").
#[derive(Debug, Clone, PartialEq, Eq)]
pub struct IssueRelationView {
    /// The relation ID (what `issues unrelate` takes).
    pub id: String,
    /// The direction from the queried issue's side.
    pub direction: String,
    /// The raw relation type.
    pub relation_type: String,
    /// The issue at the other end.
    pub other: IssueSlim,
}

/// The relations touching one issue, ready for output.
#[derive(Debug, Clone, PartialEq, Eq)]
pub struct IssueRelationList {
    pub nodes: Vec<IssueRelationView>,
}

/// The direction of a relation read from its source issue.
pub open spec fn source_direction(relation_type: Seq<char>) -> Seq<char> {
    if relation_type == "blocks"@ {
        "blocks"@
    } else if relation_type == "duplicate"@ {
        "duplicate of"@
    } else if relation_type == "similar"@ {
        "similar to"@
    } else {
        "related to"@
    }
}

/// The direction of a relation read from its target issue.
pub open spec fn target_direction(relation_type: Seq<char>) -> Seq<char> {
    if relation_type == "blocks"@ {
        "blocked by"@
    } else if relation_type == "duplicate"@ {
        "duplicated by"@
    } else if relation_type == "similar"@ {
        "similar to"@
    } else {
        "related to"@
    }
}

impl IssueRelationView {
    /// The view of a relation from the issue that is its source: the other
    /// end is the related issue.
    pub fn from_source(rel: IssueRelation) -> (r: IssueRelationView)
        ensures
            r.id == rel.id,
            r.direction@ == source_direction(rel.relation_type@),
            r.relation_type == rel.relation_type,
            r.other == rel.related_issue,
    {
        let t = rel.relation_type.as_str();
        let direction = if str_eq(t, "blocks") {
            "blocks"
        } else if str_eq(t, "duplicate") {
            "duplicate of"
        } else if str_eq(t, "similar") {
            "similar to"
        } else {
            "related to"
        };
        IssueRelationView {
            id: rel.id,
            direction: direction.to_owned(),
            relation_type: rel.relation_type,
            other: rel.related_issue,
        }
    }

    /// The view of a relation from the issue that is its target: the other
    /// end is the source issue.
    pub fn from_target(rel: IssueRelation) -> (r: IssueRelationView)
        ensures
            r.id == rel.id,
            r.direction@ == target_direction(rel.relation_type@),
            r.relation_type == rel.relation_type,
            r.other == rel.issue,
    {
        let t = rel.relation_type.as_str();
        let direction = if str_eq(t, "blocks") {
            "blocked by"
        } else if str_eq(t, "duplicate") {
            "duplicated by"
        } else if str_eq(t, "similar") {
            "similar to"
        } else {
            "related to"
        };
        IssueRelationView {
            id: rel.id,
            direction: direction.to_owned(),
            relation_type: rel.relation_type,
            other: rel.issue,
        }
    }
}

/// The relations of an issue: first those it is the source of, seen from the
/// source, then those it is the target of, seen from the target.
pub fn relation_list(relations: Vec<IssueRelation>, inverse: Vec<IssueRelation>) -> (r: IssueRelationList)
    ensures
        r.nodes@.len() == relations@.len() + inverse@.len(),
        forall|i: int|
            0 <= i < relations@.len() ==> {
                let v = #[trigger] r.nodes@[i];
                let rel = relations@[i];
                &&& v.id == rel.id
                &&& v.direction@ == source_direction(rel.relation_type@)
                &&& v.relation_type == rel.relation_type
                &&& v.other == rel.related_issue
            },
        forall|i: int|
            0 <= i < inverse@.len() ==> {
                let v = #[trigger] r.nodes@[relations@.len() + i];
                let rel = inverse@[i];
                &&& v.id == rel.id
                &&& v.direction@ == target_direction(rel.relation_type@)
                &&& v.relation_type == rel.relation_type
                &&& v.other == rel.issue
            },
{
    let ghost rs = relations@;
    let ghost inv = inverse@;
    let mut nodes: Vec<IssueRelationView> = Vec::new();
    for rel in it: relations
        invariant
            rs == it.seq(),
            nodes@.len() == it.index(),
            forall|i: int|
                0 <= i < nodes@.len() ==> {
                    let v = #[trigger] nodes@[i];
                    let rel = rs[i];
                    &&& v.id == rel.id
                    &&& v.direction@ == source_direction(rel.relation_type@)
                    &&& v.relation_type == rel.relation_type
                    &&& v.other == rel.related_issue
                },
    {
        nodes.push(IssueRelationView::from_source(rel));
    }
    let n = nodes.len();
    for rel in it: inverse
        invariant
            inv == it.seq(),
            n == rs.len(),
            nodes@.len() == n + it.index(),
            forall|i: int|
                0 <= i < n ==> {
                    let v = #[trigger] nodes@[i];
                    let rel = rs[i];
                    &&& v.id == rel.id
                    &&& v.direction@ == source_direction(rel.relation_type@)
                    &&& v.relation_type == rel.relation_type
                    &&& v.other == rel.related_issue
                },
            forall|i: int|
                0 <= i < it.index() ==> {
                    let v = #[trigger] nodes@[n + i];
                    let rel = inv[i];
                    &&& v.id == rel.id
                    &&& v.direction@ == target_direction(rel.relation_type@)
                    &&& v.relation_type == rel.relation_type
                    &&& v.other == rel.issue
                },
    {
        nodes.push(IssueRelationView::from_target(rel));
    }
    IssueRelationList { nodes }
}


/// The direction flags of `issues relate`.
#[derive(Debug, Clone, Copy, PartialEq, Eq)]
pub enum RelationDirection {
    /// `--blocks`: the issue blocks the target.
    Blocks,
    /// `--blocked-by`: the target blocks the issue.
    BlockedBy,
    /// `--related-to`.
    RelatedTo,
    /// `--duplicate-of`: the issue duplicates the target.
    DuplicateOf,
    /// `--similar-to`.
    SimilarTo,
}

/// The relation type the API stores for a direction.
pub open spec fn direction_type(d: RelationDirection) -> Seq<char> {
    match d {
        RelationDirection::Blocks | RelationDirection::BlockedBy => "blocks"@,
        RelationDirection::RelatedTo => "related"@,
        RelationDirection::DuplicateOf => "duplicate"@,
        RelationDirection::SimilarTo => "similar"@,
    }
}

/// Whether the issue named on the command line is the relation's source;
/// `--blocked-by` is the inverse of `--blocks`, so there it is the target.
pub open spec fn issue_is_source(d: RelationDirection) -> bool {
    d != RelationDirection::BlockedBy
}

/// How the relation reads from the issue named on the command line.
pub open spec fn direction_label(d: RelationDirection) -> Seq<char> {
    match d {
        RelationDirection::Blocks => "blocks"@,
        RelationDirection::BlockedBy => "blocked by"@,
        RelationDirection::RelatedTo => "related to"@,
        RelationDirection::DuplicateOf => "duplicate of"@,
        RelationDirection::SimilarTo => "similar to"@,
    }
}

/// The input of the relation-creating mutation.
#[derive(Debug, Clone, PartialEq, Eq)]
pub struct IssueRelationCreateInput {
    /// The source issue.
    pub issue_id: String,
    /// The target issue.
    pub related_issue_id: String,
    /// The relation type.
    pub relation_type: String,
}

/// The refusal when no direction flag was given.
pub open spec fn no_direction_message() -> Seq<char> {
    "exactly one of --blocks, --blocked-by, --related-to, --duplicate-of, --similar-to is required"@
}

/// The refusal when several direction flags were given.
pub open spec fn many_directions_message() -> Seq<char> {
    "only one relation direction may be specified"@
}

pub open spec fn flag_count(
    blocks: Option<String>,
    blocked_by: Option<String>,
    related_to: Option<String>,
    duplicate_of: Option<String>,
    similar_to: Option<String>,
) -> int {
    (if blocks is Some { 1int } else { 0 }) + (if blocked_by is Some { 1int } else { 0 }) + (if related_to is Some {
        1int
    } else {
        0
    }) + (if duplicate_of is Some { 1int } else { 0 }) + (if similar_to is Some { 1int } else { 0 })
}

/// The direction and target of `issues relate`: exactly one of the five flags
/// must be given; none or several are refused with `InvalidInput`.
pub fn select_relation(
    blocks: Option<String>,
    blocked_by: Option<String>,
    related_to: Option<String>,
    duplicate_of: Option<String>,
    similar_to: Option<String>,
) -> (r: Result<(RelationDirection, String), CliError>)
    ensures
        ({
            let n = flag_count(blocks, blocked_by, related_to, duplicate_of, similar_to);
            &&& n == 0 ==> (r matches Err(CliError::InvalidInput(m)) && m@ == no_direction_message())
            &&& n >= 2 ==> (r matches Err(CliError::InvalidInput(m)) && m@ == many_directions_message())
            &&& n == 1 ==> (r matches Ok((d, t)) && match d {
                RelationDirection::Blocks => blocks == Some(t),
                RelationDirection::BlockedBy => blocked_by == Some(t),
                RelationDirection::RelatedTo => related_to == Some(t),
                RelationDirection::DuplicateOf => duplicate_of == Some(t),
                RelationDirection::SimilarTo => similar_to == Some(t),
            })
        }),
{
    let n: u8 = (if blocks.is_some() { 1u8 } else { 0 }) + (if blocked_by.is_some() { 1u8 } else { 0 }) + (
    if related_to.is_some() {
        1u8
    } else {
        0
    }) + (if duplicate_of.is_some() { 1u8 } else { 0 }) + (if similar_to.is_some() { 1u8 } else { 0 });
    if n == 0 {
        return Err(
            CliError::InvalidInput(
                "exactly one of --blocks, --blocked-by, --related-to, --duplicate-of, --similar-to is required".to_owned(),
            ),
        );
    }
    if n >= 2 {
        return Err(CliError::InvalidInput("only one relation direction may be specified".to_owned()));
    }
    if let Some(t) = blocks {
        Ok((RelationDirection::Blocks, t))
    } else if let Some(t) = blocked_by {
        Ok((RelationDirection::BlockedBy, t))
    } else if let Some(t) = related_to {
        Ok((RelationDirection::RelatedTo, t))
    } else if let Some(t) = duplicate_of {
        Ok((RelationDirection::DuplicateOf, t))
    } else {
        match similar_to {
            Some(t) => Ok((RelationDirection::SimilarTo, t)),
            None => Err(CliError::InvalidInput("only one relation direction may be specified".to_owned())),
        }
    }
}

/// The relation to create for `issues relate <issue> --<direction> <target>`:
/// the issue is the source except for `--blocked-by`, where the two swap.
pub fn relation_input(issue: String, direction: RelationDirection, target: String) -> (r:
    IssueRelationCreateInput)
    ensures
        r.relation_type@ == direction_type(direction),
        issue_is_source(direction) ==> r.issue_id == issue && r.related_issue_id == target,
        !issue_is_source(direction) ==> r.issue_id == target && r.related_issue_id == issue,
{
    let relation_type = match direction {
        RelationDirection::Blocks | RelationDirection::BlockedBy => "blocks",
        RelationDirection::RelatedTo => "related",
        RelationDirection::DuplicateOf => "duplicate",
        RelationDirection::SimilarTo => "similar",
    };
    match direction {
        RelationDirection::BlockedBy => IssueRelationCreateInput {
            issue_id: target,
            related_issue_id: issue,
            relation_type: relation_type.to_owned(),
        },
        _ => IssueRelationCreateInput {
            issue_id: issue,
            related_issue_id: target,
            relation_type: relation_type.to_owned(),
        },
    }
}

/// A relation created with `issues relate I --<flag> T` reads back, when the
/// relations of `I` are listed, with the flag's own wording: `I` is the
/// source of the stored relation exactly when the flag is not `--blocked-by`,
/// and from `I`'s side the direction is the flag's label and the other end
/// is `T`.
pub proof fn lemma_relate_reads_back(d: RelationDirection)
    ensures
        issue_is_source(d) ==> source_direction(direction_type(d)) == direction_label(d),
        !issue_is_source(d) ==> target_direction(direction_type(d)) == direction_label(d),
{
    reveal_strlit("blocks");
    reveal_strlit("related");
    reveal_strlit("duplicate");
    reveal_strlit("similar");
    match d {
        RelationDirection::RelatedTo => {
            assert("related"@[0] != "blocks"@[0]);
            assert("related"@[0] != "duplicate"@[0]);
            assert("related"@[0] != "similar"@[0]);
        },
        RelationDirection::DuplicateOf => {
            assert("duplicate"@[0] != "blocks"@[0]);
        },
        RelationDirection::SimilarTo => {
            assert("similar"@[0] != "blocks"@[0]);
            assert("similar"@[0] != "duplicate"@[0]);
        },
        _ => {},
    }
}
} // verus!
