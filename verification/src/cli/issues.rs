//! `issues`: list (with filters), show, search, create, update, archive and
//! delete issues, and relate them to each other. What the user names by key,
//! name or email is looked up first; the mutation inputs are put together
//! once those lookups are done.

use vstd::prelude::*;
use crate::args::PaginationArgs;
use crate::common::MutationResponse;
use crate::error::CliError;
use crate::common::clone_opt_string;
use crate::issues::{
    IssueFilter, ProjectMilestoneLink, build_filter, id_filter, name_filter, priority_filter, team_key_filter,
};
use crate::resolve::{Lookup, ResolvedMilestone};
use crate::relations::{
    IssueRelationCreateInput, RelationDirection, direction_type, flag_count, issue_is_source,
    many_directions_message, no_direction_message, relation_input, select_relation,
};

verus! {

/// `P` is the type of the priority filter of `issues list` (a number the API
/// compares as given).
#[derive(Debug, Clone, PartialEq)]
pub struct IssuesCommand<P> {
    pub action: IssuesAction<P>,
}

#[derive(Debug, Clone, PartialEq)]
pub enum IssuesAction<P> {
    List {
        pagination: PaginationArgs,
        /// Team key (e.g. "ENG").
        team: Option<String>,
        /// User ID, name, email, or "me".
        assignee: Option<String>,
        /// State name.
        state: Option<String>,
        /// Label name.
        label: Option<String>,
        /// Project ID, name or slug.
        project: Option<String>,
        /// Milestone ID or name (names within `project` when given).
        milestone: Option<String>,
        /// Cycle ID.
        cycle: Option<String>,
        /// 0 = none, 1 = urgent, 2 = high, 3 = medium, 4 = low.
        priority: Option<P>,
    },
    /// An issue by ID or identifier (e.g. "ENG-123").
    Get { id: String },
    Create {
        title: String,
        team: String,
        description: Option<String>,
        assignee: Option<String>,
        priority: Option<i32>,
        state: Option<String>,
        project: Option<String>,
        milestone: Option<String>,
        cycle: Option<String>,
        labels: Vec<String>,
        due_date: Option<String>,
        estimate: Option<i32>,
        parent: Option<String>,
    },
    Update {
        id: String,
        title: Option<String>,
        description: Option<String>,
        assignee: Option<String>,
        priority: Option<i32>,
        state: Option<String>,
        project: Option<String>,
        /// Milestone ID or name (names within `project`, else within the
        /// issue's current project).
        milestone: Option<String>,
        /// Unlink the issue from its milestone.
        no_milestone: bool,
        cycle: Option<String>,
        add_labels: Vec<String>,
        remove_labels: Vec<String>,
        due_date: Option<String>,
        estimate: Option<i32>,
        parent: Option<String>,
        team: Option<String>,
    },
    Archive { id: String },
    /// Delete (trash) an issue.
    Delete { id: String },
    /// Issues matching a text.
    Search { query: String, pagination: PaginationArgs },
    /// A relation from an issue to another; exactly one direction is given.
    Relate {
        issue: String,
        blocks: Option<String>,
        blocked_by: Option<String>,
        related_to: Option<String>,
        duplicate_of: Option<String>,
        similar_to: Option<String>,
    },
    /// The relations of an issue, in both directions.
    Relations { issue: String },
    /// Delete a relation by its ID.
    Unrelate { id: String },
}

#[derive(Debug, Clone, PartialEq, Eq)]
pub struct IssueCreateInput {
    pub team_id: String,
    pub title: String,
    pub description: Option<String>,
    pub assignee_id: Option<String>,
    pub priority: Option<i32>,
    pub state_id: Option<String>,
    pub project_id: Option<String>,
    pub project_milestone_id: Option<String>,
    pub cycle_id: Option<String>,
    /// Left out when no label is given.
    pub label_ids: Option<Vec<String>>,
    pub due_date: Option<String>,
    pub estimate: Option<i32>,
    pub parent_id: Option<String>,
}

#[derive(Debug, Clone, PartialEq, Eq)]
pub struct IssueUpdateInput {
    pub team_id: Option<String>,
    pub title: Option<String>,
    pub description: Option<String>,
    pub assignee_id: Option<String>,
    pub priority: Option<i32>,
    pub state_id: Option<String>,
    pub project_id: Option<String>,
    /// `Some(Some(id))` links the milestone, `Some(None)` unlinks it (sent as
    /// null), `None` leaves it.
    pub project_milestone_id: Option<Option<String>>,
    pub cycle_id: Option<String>,
    /// Left out when no label is added.
    pub added_label_ids: Option<Vec<String>>,
    /// Left out when no label is removed.
    pub removed_label_ids: Option<Vec<String>>,
    pub due_date: Option<String>,
    pub estimate: Option<i32>,
    pub parent_id: Option<String>,
}

#[derive(Debug, Clone, PartialEq, Eq)]
pub struct IssueByIdVariables {
    pub id: String,
}

#[derive(Debug, Clone, PartialEq, Eq)]
pub struct IssueCreateVariables {
    pub input: IssueCreateInput,
}

#[derive(Debug, Clone, PartialEq, Eq)]
pub struct IssueUpdateVariables {
    pub id: String,
    pub input: IssueUpdateInput,
}

#[derive(Debug, Clone, PartialEq, Eq)]
pub struct IssueArchiveVariables {
    pub id: String,
}

#[derive(Debug, Clone, PartialEq, Eq)]
pub struct IssueDeleteVariables {
    pub id: String,
}

/// The search text and the list options of `issues search`.
#[derive(Debug, Clone, PartialEq, Eq)]
pub struct IssueSearchVariables {
    pub query: String,
    pub pagination: PaginationArgs,
}

/// The answer to archiving or deleting an issue.
#[derive(Debug, Clone, PartialEq, Eq)]
pub struct ArchivePayload {
    pub success: bool,
}

impl ArchivePayload {
    /// The printed result: the flag, no data.
    pub fn into_response(self) -> (r: MutationResponse<()>)
        ensures
            r.success == self.success,
            r.data.is_none(),
    {
        MutationResponse { success: self.success, data: None }
    }
}

/// The answer to deleting a relation.
#[derive(Debug, Clone, PartialEq, Eq)]
pub struct RelationDeletePayload {
    pub success: bool,
}

impl RelationDeletePayload {
    /// The printed result: the flag, no data.
    pub fn into_response(self) -> (r: MutationResponse<()>)
        ensures
            r.success == self.success,
            r.data.is_none(),
    {
        MutationResponse { success: self.success, data: None }
    }
}

/// `Some(ids)`, or nothing when there are no IDs.
pub open spec fn nonempty_ids(ids: Vec<String>) -> Option<Vec<String>> {
    if ids.len() == 0 {
        None
    } else {
        Some(ids)
    }
}

fn nonempty(ids: Vec<String>) -> (r: Option<Vec<String>>)
    ensures
        r == nonempty_ids(ids),
{
    if ids.len() == 0 {
        None
    } else {
        Some(ids)
    }
}

/// An issue creation waiting for its team, assignee, state, project,
/// milestone and labels to be looked up.
#[derive(Debug, Clone, PartialEq, Eq)]
pub struct PendingIssueCreate {
    pub title: String,
    pub team: String,
    pub description: Option<String>,
    pub assignee: Option<String>,
    pub priority: Option<i32>,
    pub state: Option<String>,
    pub project: Option<String>,
    pub milestone: Option<String>,
    pub cycle: Option<String>,
    pub labels: Vec<String>,
    pub due_date: Option<String>,
    pub estimate: Option<i32>,
    pub parent: Option<String>,
}

impl PendingIssueCreate {
    /// The input once the lookups are done: the resolved IDs where the user
    /// named something, the other options as given, and no label list when
    /// no label was given.
    pub fn finish(
        self,
        team_id: String,
        assignee_id: Option<String>,
        state_id: Option<String>,
        link: ProjectMilestoneLink,
        label_ids: Vec<String>,
    ) -> (r: IssueCreateVariables)
        ensures
            r.input == (IssueCreateInput {
                team_id,
                title: self.title,
                description: self.description,
                assignee_id,
                priority: self.priority,
                state_id,
                project_id: link.project_id,
                project_milestone_id: link.project_milestone_id,
                cycle_id: self.cycle,
                label_ids: nonempty_ids(label_ids),
                due_date: self.due_date,
                estimate: self.estimate,
                parent_id: self.parent,
            }),
    {
        let label_ids = nonempty(label_ids);
        IssueCreateVariables {
            input: IssueCreateInput {
                team_id,
                title: self.title,
                description: self.description,
                assignee_id,
                priority: self.priority,
                state_id,
                project_id: link.project_id,
                project_milestone_id: link.project_milestone_id,
                cycle_id: self.cycle,
                label_ids,
                due_date: self.due_date,
                estimate: self.estimate,
                parent_id: self.parent,
            },
        }
    }
}

/// An issue update waiting for its lookups.
#[derive(Debug, Clone, PartialEq, Eq)]
pub struct PendingIssueUpdate {
    pub id: String,
    pub title: Option<String>,
    pub description: Option<String>,
    pub assignee: Option<String>,
    pub priority: Option<i32>,
    pub state: Option<String>,
    pub project: Option<String>,
    pub milestone: Option<String>,
    pub no_milestone: bool,
    pub cycle: Option<String>,
    pub add_labels: Vec<String>,
    pub remove_labels: Vec<String>,
    pub due_date: Option<String>,
    pub estimate: Option<i32>,
    pub parent: Option<String>,
    pub team: Option<String>,
}

/// The milestone change of an update: unlinked with `--no-milestone`, else
/// the resolved milestone when one was given, else unchanged.
pub open spec fn milestone_change(no_milestone: bool, milestone_id: Option<String>) -> Option<Option<String>> {
    if no_milestone {
        Some(None)
    } else {
        match milestone_id {
            Some(m) => Some(Some(m)),
            None => None,
        }
    }
}

impl PendingIssueUpdate {
    /// The update once the lookups are done: only what was given is sent.
    pub fn finish(
        self,
        team_id: Option<String>,
        assignee_id: Option<String>,
        state_id: Option<String>,
        link: ProjectMilestoneLink,
        added_label_ids: Vec<String>,
        removed_label_ids: Vec<String>,
    ) -> (r: IssueUpdateVariables)
        ensures
            r.id == self.id,
            r.input == (IssueUpdateInput {
                team_id,
                title: self.title,
                description: self.description,
                assignee_id,
                priority: self.priority,
                state_id,
                project_id: link.project_id,
                project_milestone_id: milestone_change(self.no_milestone, link.project_milestone_id),
                cycle_id: self.cycle,
                added_label_ids: nonempty_ids(added_label_ids),
                removed_label_ids: nonempty_ids(removed_label_ids),
                due_date: self.due_date,
                estimate: self.estimate,
                parent_id: self.parent,
            }),
    {
        let project_milestone_id = if self.no_milestone {
            Some(None)
        } else {
            match link.project_milestone_id {
                Some(m) => Some(Some(m)),
                None => None,
            }
        };
        let added = nonempty(added_label_ids);
        let removed = nonempty(removed_label_ids);
        IssueUpdateVariables {
            id: self.id,
            input: IssueUpdateInput {
                team_id,
                title: self.title,
                description: self.description,
                assignee_id,
                priority: self.priority,
                state_id,
                project_id: link.project_id,
                project_milestone_id,
                cycle_id: self.cycle,
                added_label_ids: added,
                removed_label_ids: removed,
                due_date: self.due_date,
                estimate: self.estimate,
                parent_id: self.parent,
            },
        }
    }
}

/// The lookups of `issues list` still to be done, and the other filters.
#[derive(Debug, Clone, PartialEq)]
pub struct PendingIssueList<P> {
    pub pagination: PaginationArgs,
    pub team: Option<String>,
    pub assignee: Option<String>,
    pub state: Option<String>,
    pub label: Option<String>,
    pub project: Option<String>,
    pub milestone: Option<String>,
    pub cycle: Option<String>,
    pub priority: Option<P>,
}

impl<P> PendingIssueList<P> {
    /// The assignee to look up, when one was given.
    pub fn assignee_lookup(&self) -> (r: Option<Lookup>)
        ensures
            r == match self.assignee {
                Some(a) => Some(Lookup::Assignee(a)),
                None => None::<Lookup>,
            },
    {
        match &self.assignee {
            Some(a) => Some(Lookup::Assignee(a.clone())),
            None => None,
        }
    }

    /// The project to look up, when one was given.
    pub fn project_lookup(&self) -> (r: Option<Lookup>)
        ensures
            r == match self.project {
                Some(p) => Some(Lookup::Project(p)),
                None => None::<Lookup>,
            },
    {
        match &self.project {
            Some(p) => Some(Lookup::Project(p.clone())),
            None => None,
        }
    }

    /// The milestone to look up, when one was given: within the project,
    /// once that is resolved, when one was given.
    pub fn milestone_lookup(&self, project_id: &Option<String>) -> (r: Option<Lookup>)
        ensures
            r == match self.milestone {
                Some(m) => Some(Lookup::Milestone { value: m, project_id: *project_id }),
                None => None::<Lookup>,
            },
    {
        match &self.milestone {
            Some(m) => Some(Lookup::Milestone { value: m.clone(), project_id: clone_opt_string(project_id) }),
            None => None,
        }
    }

    /// The filter once the lookups are done: the resolved assignee, project
    /// and milestone, the other options as given; none when nothing filters.
    pub fn finish(
        self,
        assignee_id: Option<String>,
        project_id: Option<String>,
        milestone: Option<ResolvedMilestone>,
    ) -> (r: (PaginationArgs, Option<IssueFilter<P>>))
        ensures
            r.0 == self.pagination,
            ({
                let milestone_id = match milestone {
                    Some(m) => Some(m.id),
                    None => None::<String>,
                };
                &&& (self.team is None && assignee_id is None && self.state is None && self.label is None
                    && project_id is None && milestone_id is None && self.cycle is None && self.priority is None)
                    <==> r.1 is None
                &&& r.1 matches Some(f) ==> {
                    &&& f.team == team_key_filter(self.team)
                    &&& f.assignee == id_filter(assignee_id)
                    &&& f.state == name_filter(self.state)
                    &&& f.labels == name_filter(self.label)
                    &&& f.project == id_filter(project_id)
                    &&& f.project_milestone == id_filter(milestone_id)
                    &&& f.cycle == id_filter(self.cycle)
                    &&& f.priority == priority_filter(self.priority)
                }
            }),
    {
        let milestone_id = match milestone {
            Some(m) => Some(m.id),
            None => None,
        };
        let filter = build_filter(
            self.team,
            assignee_id,
            self.state,
            self.label,
            project_id,
            milestone_id,
            self.cycle,
            self.priority,
        );
        (self.pagination, filter)
    }
}

/// What an `issues` command asks for.
#[derive(Debug, Clone, PartialEq)]
pub enum IssuesRequest<P> {
    List(PendingIssueList<P>),
    Get(IssueByIdVariables),
    Create(PendingIssueCreate),
    Update(PendingIssueUpdate),
    Archive(IssueArchiveVariables),
    Delete(IssueDeleteVariables),
    Search(IssueSearchVariables),
    Relate(IssueRelationCreateInput),
    /// The relations of this issue.
    Relations(String),
    /// Delete this relation.
    Unrelate(String),
}

impl<P> IssuesCommand<P> {
    /// The request of the command. Only `relate` can be refused here: with
    /// no direction flag or several.
    pub fn request(self) -> (r: Result<IssuesRequest<P>, CliError>)
        ensures
            self.action matches IssuesAction::List {
                pagination,
                team,
                assignee,
                state,
                label,
                project,
                milestone,
                cycle,
                priority,
            } ==> r == Ok::<IssuesRequest<P>, CliError>(
                IssuesRequest::List(
                    PendingIssueList {
                        pagination,
                        team,
                        assignee,
                        state,
                        label,
                        project,
                        milestone,
                        cycle,
                        priority,
                    },
                ),
            ),
            self.action matches IssuesAction::Get { id } ==> r == Ok::<IssuesRequest<P>, CliError>(
                IssuesRequest::Get(IssueByIdVariables { id }),
            ),
            self.action matches IssuesAction::Create {
                title,
                team,
                description,
                assignee,
                priority,
                state,
                project,
                milestone,
                cycle,
                labels,
                due_date,
                estimate,
                parent,
            } ==> r == Ok::<IssuesRequest<P>, CliError>(
                IssuesRequest::Create(
                    PendingIssueCreate {
                        title,
                        team,
                        description,
                        assignee,
                        priority,
                        state,
                        project,
                        milestone,
                        cycle,
                        labels,
                        due_date,
                        estimate,
                        parent,
                    },
                ),
            ),
            self.action matches IssuesAction::Update {
                id,
                title,
                description,
                assignee,
                priority,
                state,
                project,
                milestone,
                no_milestone,
                cycle,
                add_labels,
                remove_labels,
                due_date,
                estimate,
                parent,
                team,
            } ==> r == Ok::<IssuesRequest<P>, CliError>(
                IssuesRequest::Update(
                    PendingIssueUpdate {
                        id,
                        title,
                        description,
                        assignee,
                        priority,
                        state,
                        project,
                        milestone,
                        no_milestone,
                        cycle,
                        add_labels,
                        remove_labels,
                        due_date,
                        estimate,
                        parent,
                        team,
                    },
                ),
            ),
            self.action matches IssuesAction::Archive { id } ==> r == Ok::<IssuesRequest<P>, CliError>(
                IssuesRequest::Archive(IssueArchiveVariables { id }),
            ),
            self.action matches IssuesAction::Delete { id } ==> r == Ok::<IssuesRequest<P>, CliError>(
                IssuesRequest::Delete(IssueDeleteVariables { id }),
            ),
            self.action matches IssuesAction::Search { query, pagination } ==> r == Ok::<
                IssuesRequest<P>,
                CliError,
            >(IssuesRequest::Search(IssueSearchVariables { query, pagination })),
            self.action matches IssuesAction::Relate {
                issue,
                blocks,
                blocked_by,
                related_to,
                duplicate_of,
                similar_to,
            } ==> ({
                let n = flag_count(blocks, blocked_by, related_to, duplicate_of, similar_to);
                &&& n == 0 ==> (r matches Err(CliError::InvalidInput(m)) && m@ == no_direction_message())
                &&& n >= 2 ==> (r matches Err(CliError::InvalidInput(m)) && m@ == many_directions_message())
                &&& n == 1 ==> (r matches Ok(IssuesRequest::Relate(input)) && exists|d: RelationDirection, t: String|
                    {
                        &&& #[trigger] relation_chosen(d, t, blocks, blocked_by, related_to, duplicate_of, similar_to)
                        &&& input.relation_type@ == direction_type(d)
                        &&& issue_is_source(d) ==> input.issue_id == issue && input.related_issue_id == t
                        &&& !issue_is_source(d) ==> input.issue_id == t && input.related_issue_id == issue
                    })
            }),
            self.action matches IssuesAction::Relations { issue } ==> r == Ok::<IssuesRequest<P>, CliError>(
                IssuesRequest::Relations(issue),
            ),
            self.action matches IssuesAction::Unrelate { id } ==> r == Ok::<IssuesRequest<P>, CliError>(
                IssuesRequest::Unrelate(id),
            ),
    {
        match self.action {
            IssuesAction::List { pagination, team, assignee, state, label, project, milestone, cycle, priority } => Ok(
                IssuesRequest::List(
                    PendingIssueList { pagination, team, assignee, state, label, project, milestone, cycle, priority },
                ),
            ),
            IssuesAction::Get { id } => Ok(IssuesRequest::Get(IssueByIdVariables { id })),
            IssuesAction::Create {
                title,
                team,
                description,
                assignee,
                priority,
                state,
                project,
                milestone,
                cycle,
                labels,
                due_date,
                estimate,
                parent,
            } => Ok(
                IssuesRequest::Create(
                    PendingIssueCreate {
                        title,
                        team,
                        description,
                        assignee,
                        priority,
                        state,
                        project,
                        milestone,
                        cycle,
                        labels,
                        due_date,
                        estimate,
                        parent,
                    },
                ),
            ),
            IssuesAction::Update {
                id,
                title,
                description,
                assignee,
                priority,
                state,
                project,
                milestone,
                no_milestone,
                cycle,
                add_labels,
                remove_labels,
                due_date,
                estimate,
                parent,
                team,
            } => Ok(
                IssuesRequest::Update(
                    PendingIssueUpdate {
                        id,
                        title,
                        description,
                        assignee,
                        priority,
                        state,
                        project,
                        milestone,
                        no_milestone,
                        cycle,
                        add_labels,
                        remove_labels,
                        due_date,
                        estimate,
                        parent,
                        team,
                    },
                ),
            ),
            IssuesAction::Archive { id } => Ok(IssuesRequest::Archive(IssueArchiveVariables { id })),
            IssuesAction::Delete { id } => Ok(IssuesRequest::Delete(IssueDeleteVariables { id })),
            IssuesAction::Search { query, pagination } => Ok(
                IssuesRequest::Search(IssueSearchVariables { query, pagination }),
            ),
            IssuesAction::Relate { issue, blocks, blocked_by, related_to, duplicate_of, similar_to } => {
                let ghost (b, bb, rt, d, s) = (blocks, blocked_by, related_to, duplicate_of, similar_to);
                match select_relation(blocks, blocked_by, related_to, duplicate_of, similar_to) {
                    Ok((dir, target)) => {
                        let input = relation_input(issue, dir, target);
                        assert(relation_chosen(dir, target, b, bb, rt, d, s));
                        Ok(IssuesRequest::Relate(input))
                    },
                    Err(e) => Err(e),
                }
            },
            IssuesAction::Relations { issue } => Ok(IssuesRequest::Relations(issue)),
            IssuesAction::Unrelate { id } => Ok(IssuesRequest::Unrelate(id)),
        }
    }
}

/// `d` is the direction flag that was given, with target `t`.
pub open spec fn relation_chosen(
    d: RelationDirection,
    t: String,
    blocks: Option<String>,
    blocked_by: Option<String>,
    related_to: Option<String>,
    duplicate_of: Option<String>,
    similar_to: Option<String>,
) -> bool {
    match d {
        RelationDirection::Blocks => blocks == Some(t),
        RelationDirection::BlockedBy => blocked_by == Some(t),
        RelationDirection::RelatedTo => related_to == Some(t),
        RelationDirection::DuplicateOf => duplicate_of == Some(t),
        RelationDirection::SimilarTo => similar_to == Some(t),
    }
}

/// The answer to creating or updating an issue: the success flag and the record.
#[derive(Debug, Clone, PartialEq, Eq)]
pub struct IssuePayload<T> {
    pub success: bool,
    pub issue: Option<T>,
}

impl<T> IssuePayload<T> {
    /// The printed result: the success flag and the record.
    pub fn into_response(self) -> (r: MutationResponse<T>)
        ensures
            r.success == self.success,
            r.data == self.issue,
    {
        MutationResponse { success: self.success, data: self.issue }
    }
}

/// The answer to creating a relation: the success flag and the record.
#[derive(Debug, Clone, PartialEq, Eq)]
pub struct IssueRelationPayload<T> {
    pub success: bool,
    pub issue_relation: Option<T>,
}

impl<T> IssueRelationPayload<T> {
    /// The printed result: the success flag and the record.
    pub fn into_response(self) -> (r: MutationResponse<T>)
        ensures
            r.success == self.success,
            r.data == self.issue_relation,
    {
        MutationResponse { success: self.success, data: self.issue_relation }
    }
}

} // verus!
