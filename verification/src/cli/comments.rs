//! `comments`: list threads or the replies of one comment, show, create,
//! update and delete comments.

use vstd::prelude::*;
use crate::args::PaginationArgs;
use crate::common::{ListResponse, MutationResponse, PageInfo};
use crate::entities::UserSlim;
use crate::filters::{IdComparator, IdFilter, id_eq, id_eq_cmp};
use crate::issues::{id_filter, id_filter_of};
use crate::resolve::Lookup;
use crate::text::{decimal_digits, decimal_text};

verus! {

#[derive(Debug, Clone, PartialEq, Eq)]
pub struct CommentsCommand {
    pub action: CommentsAction,
}

#[derive(Debug, Clone, PartialEq, Eq)]
pub enum CommentsAction {
    /// Thread roots (with a preview of their replies), or with `parent` the
    /// replies of one comment.
    List { pagination: PaginationArgs, issue: Option<String>, parent: Option<String> },
    Get { id: String },
    /// A comment on an issue (ID or identifier), or a reply to `parent`.
    Create { issue: String, body: String, parent: Option<String> },
    Update { id: String, body: String },
    Delete { id: String },
}

#[derive(Debug, Clone, PartialEq, Eq)]
pub struct CommentIssueSlim {
    pub id: String,
    pub identifier: String,
    pub title: String,
}

#[derive(Debug, Clone, PartialEq, Eq)]
pub struct CommentSlim {
    pub id: String,
    pub body: String,
}

#[derive(Debug)]
pub struct Comment {
    pub id: String,
    pub body: String,
    pub created_at: String,
    pub updated_at: String,
    pub edited_at: Option<String>,
    pub archived_at: Option<String>,
    pub resolved_at: Option<String>,
    pub url: String,
    pub user: Option<UserSlim>,
    pub issue: Option<CommentIssueSlim>,
    pub parent: Option<CommentSlim>,
    /// The replies fetched with the comment (threads are one level deep);
    /// empty where they were not asked for.
    pub children: CommentChildren,
}

/// The replies of a comment as fetched inline.
#[derive(Debug)]
pub struct CommentChildren {
    pub nodes: Vec<Comment>,
    /// Present whenever replies were requested; a next page means the thread
    /// has more replies than were fetched.
    pub page_info: Option<PageInfo>,
}

impl CommentChildren {
    /// No replies were fetched.
    pub fn is_empty(&self) -> (r: bool)
        ensures
            r == (self.nodes.len() == 0),
    {
        self.nodes.len() == 0
    }

    /// The thread has replies beyond the ones fetched inline.
    pub fn has_more(&self) -> (r: bool)
        ensures
            r == (self.page_info matches Some(p) && p.has_next_page),
    {
        match &self.page_info {
            Some(p) => p.has_next_page,
            None => false,
        }
    }
}

/// A page of thread roots, each with its replies.
#[derive(Debug)]
pub struct CommentThreads(pub ListResponse<Comment>);

/// The answer to creating or updating a comment: the success flag and the
/// comment.
#[derive(Debug, Clone, PartialEq, Eq)]
pub struct CommentPayload<T> {
    pub success: bool,
    pub comment: Option<T>,
}

#[derive(Debug, Clone, PartialEq, Eq)]
pub struct DeletePayload {
    pub success: bool,
}

impl<T> CommentPayload<T> {
    /// The printed result of a comment mutation.
    pub fn into_response(self) -> (r: MutationResponse<T>)
        ensures
            r.success == self.success,
            r.data == self.comment,
    {
        MutationResponse { success: self.success, data: self.comment }
    }
}

impl DeletePayload {
    /// The printed result of a deletion: the flag, no data.
    pub fn into_response(self) -> (r: MutationResponse<()>)
        ensures
            r.success == self.success,
            r.data.is_none(),
    {
        MutationResponse { success: self.success, data: None }
    }
}

/// The fields asked for each comment.
pub const COMMENT_FIELDS: &'static str = "
    id body createdAt updatedAt editedAt archivedAt resolvedAt url
    user { id name displayName email }
    issue { id identifier title }
    parent { id body }
";

/// How many replies are fetched inline per thread.
pub const INLINE_REPLY_LIMIT: u32 = 50;

/// The selection of a comment with its first replies and whether there are
/// more: the comment fields, then `children(first: N)` with the same fields
/// for each reply (threads do not nest further) and the reply page info.
pub open spec fn thread_fields(fields: Seq<char>, limit: nat) -> Seq<char> {
    fields + " children(first: "@ + decimal_digits(limit) + ") { nodes { "@ + fields
        + " } pageInfo { hasNextPage hasPreviousPage endCursor startCursor } }"@
}

pub fn comment_thread_fields() -> (r: String)
    ensures
        r@ == thread_fields(COMMENT_FIELDS@, INLINE_REPLY_LIMIT as nat),
{
    let mut s = COMMENT_FIELDS.to_owned();
    s.append(" children(first: ");
    let n = decimal_text(INLINE_REPLY_LIMIT as u64);
    s.append(n.as_str());
    s.append(") { nodes { ");
    s.append(COMMENT_FIELDS);
    s.append(" } pageInfo { hasNextPage hasPreviousPage endCursor startCursor } }");
    s
}

/// The parent condition of a comment list: by the parent's ID, or `null`
/// for comments without a parent.
#[derive(Debug, Clone, PartialEq, Eq)]
pub struct NullableCommentFilter {
    pub id: Option<IdComparator>,
    pub null: Option<bool>,
}

/// The filter of a comment list, in the API's shape.
#[derive(Debug, Clone, PartialEq, Eq)]
pub struct CommentFilter {
    pub parent: NullableCommentFilter,
    /// Only comments on this issue.
    pub issue: Option<IdFilter>,
}

/// The filter of `comments list`: the replies of `parent` when one is given
/// (`parent: { id: { eq } }`), else the thread roots (`parent: { null: true
/// }`); restricted to the (resolved) issue when one is given (`issue: { id: {
/// eq } }`).
pub fn comment_filter(parent: Option<String>, issue_id: Option<String>) -> (r: CommentFilter)
    ensures
        parent matches Some(p) ==> r.parent == (NullableCommentFilter { id: Some(id_eq(p)), null: None }),
        parent is None ==> r.parent == (NullableCommentFilter { id: None, null: Some(true) }),
        r.issue == id_filter(issue_id),
{
    let parent = match parent {
        Some(p) => NullableCommentFilter { id: Some(id_eq_cmp(p)), null: None },
        None => NullableCommentFilter { id: None, null: Some(true) },
    };
    CommentFilter { parent, issue: id_filter_of(issue_id) }
}

#[derive(Debug, Clone, PartialEq, Eq)]
pub struct CommentCreateInput {
    pub issue_id: Option<String>,
    pub body: String,
    pub parent_id: Option<String>,
}

#[derive(Debug, Clone, PartialEq, Eq)]
pub struct CommentUpdateInput {
    pub body: String,
}

#[derive(Debug, Clone, PartialEq, Eq)]
pub struct CommentCreateVariables {
    pub input: CommentCreateInput,
}

#[derive(Debug, Clone, PartialEq, Eq)]
pub struct CommentUpdateVariables {
    pub id: String,
    pub input: CommentUpdateInput,
}

#[derive(Debug, Clone, PartialEq, Eq)]
pub struct CommentDeleteVariables {
    pub id: String,
}

/// A comment creation waiting for its issue to be looked up.
#[derive(Debug, Clone, PartialEq, Eq)]
pub struct PendingCommentCreate {
    pub issue: String,
    pub body: String,
    pub parent: Option<String>,
}

impl PendingCommentCreate {
    /// The issue the comment goes on, to look up first.
    pub fn issue_lookup(&self) -> (r: Lookup)
        ensures
            r == Lookup::Issue(self.issue),
    {
        Lookup::Issue(self.issue.clone())
    }

    /// The creation once the issue is resolved: on that issue, with the body,
    /// as a reply to the parent when one was given.
    pub fn finish(self, issue_id: String) -> (r: CommentCreateVariables)
        ensures
            r.input == (CommentCreateInput { issue_id: Some(issue_id), body: self.body, parent_id: self.parent }),
    {
        CommentCreateVariables {
            input: CommentCreateInput { issue_id: Some(issue_id), body: self.body, parent_id: self.parent },
        }
    }
}

/// What a `comments` command asks for.
#[derive(Debug, Clone, PartialEq, Eq)]
pub enum CommentsRequest {
    /// The pages of comments by parent, on the issue (once this lookup is
    /// made) when one is given.
    List { pagination: PaginationArgs, parent: Option<String>, issue: Option<Lookup> },
    Get(String),
    Create(PendingCommentCreate),
    Update(CommentUpdateVariables),
    Delete(CommentDeleteVariables),
}

impl CommentsCommand {
    /// The request of the command.
    pub fn request(self) -> (r: CommentsRequest)
        ensures
            self.action matches CommentsAction::List { pagination, issue, parent } ==> r == (
            CommentsRequest::List {
                pagination,
                parent,
                issue: match issue {
                    Some(i) => Some(Lookup::Issue(i)),
                    None => None::<Lookup>,
                },
            }),
            self.action matches CommentsAction::Get { id } ==> r == CommentsRequest::Get(id),
            self.action matches CommentsAction::Create { issue, body, parent } ==> r == CommentsRequest::Create(
                PendingCommentCreate { issue, body, parent },
            ),
            self.action matches CommentsAction::Update { id, body } ==> r == CommentsRequest::Update(
                CommentUpdateVariables { id, input: CommentUpdateInput { body } },
            ),
            self.action matches CommentsAction::Delete { id } ==> r == CommentsRequest::Delete(
                CommentDeleteVariables { id },
            ),
    {
        match self.action {
            CommentsAction::List { pagination, issue, parent } => {
                let issue = match issue {
                    Some(i) => Some(Lookup::Issue(i)),
                    None => None,
                };
                CommentsRequest::List { pagination, parent, issue }
            },
            CommentsAction::Get { id } => CommentsRequest::Get(id),
            CommentsAction::Create { issue, body, parent } => CommentsRequest::Create(
                PendingCommentCreate { issue, body, parent },
            ),
            CommentsAction::Update { id, body } => CommentsRequest::Update(
                CommentUpdateVariables { id, input: CommentUpdateInput { body } },
            ),
            CommentsAction::Delete { id } => CommentsRequest::Delete(CommentDeleteVariables { id }),
        }
    }
}

} // verus!
