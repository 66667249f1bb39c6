//! The decisions of the `issues` commands: the list filter, the team context
//! of name lookups in an update, and how `--project` and `--milestone`
//! combine.

use vstd::prelude::*;
use crate::filters::{
    IdFilter, NullableNumberComparator, StringComparator, ignore_case, ignore_case_cmp, number_eq, number_eq_cmp,
    with_id, with_id_filter,
};
use crate::resolve::ResolvedMilestone;
use crate::text::{extract_team_key, spec_team_key};

verus! {

/// A team chosen by its key.
#[derive(Debug, Clone, PartialEq, Eq)]
pub struct TeamFilter {
    pub key: Option<StringComparator>,
}

/// A record chosen by its name (a workflow state, a label).
#[derive(Debug, Clone, PartialEq, Eq)]
pub struct NameFilter {
    pub name: Option<StringComparator>,
}

/// The filter of `issues list`, in the API's shape. Team key, state name and
/// label name are compared without regard to ASCII case (`eqIgnoreCase`);
/// assignee, project, milestone and cycle by ID and the priority by value
/// (`eq`). `P` is the priority's type.
#[derive(Debug, Clone, PartialEq)]
pub struct IssueFilter<P> {
    pub team: Option<TeamFilter>,
    pub assignee: Option<IdFilter>,
    pub state: Option<NameFilter>,
    pub labels: Option<NameFilter>,
    pub project: Option<IdFilter>,
    pub project_milestone: Option<IdFilter>,
    pub cycle: Option<IdFilter>,
    pub priority: Option<NullableNumberComparator<P>>,
}

/// The condition `{ key: { eqIgnoreCase } }` on a team, if a key is given.
pub open spec fn team_key_filter(v: Option<String>) -> Option<TeamFilter> {
    match v {
        Some(t) => Some(TeamFilter { key: Some(ignore_case(t)) }),
        None => None,
    }
}

/// The condition `{ name: { eqIgnoreCase } }`, if a name is given.
pub open spec fn name_filter(v: Option<String>) -> Option<NameFilter> {
    match v {
        Some(n) => Some(NameFilter { name: Some(ignore_case(n)) }),
        None => None,
    }
}

/// The condition `{ id: { eq } }`, if an ID is given.
pub open spec fn id_filter(v: Option<String>) -> Option<IdFilter> {
    match v {
        Some(i) => Some(with_id(i)),
        None => None,
    }
}

/// The condition `{ eq }` on the priority, if one is given.
pub open spec fn priority_filter<P>(v: Option<P>) -> Option<NullableNumberComparator<P>> {
    match v {
        Some(p) => Some(number_eq(p)),
        None => None,
    }
}

fn team_key_filter_of(v: Option<String>) -> (r: Option<TeamFilter>)
    ensures
        r == team_key_filter(v),
{
    match v {
        Some(t) => Some(TeamFilter { key: Some(ignore_case_cmp(t)) }),
        None => None,
    }
}

fn name_filter_of(v: Option<String>) -> (r: Option<NameFilter>)
    ensures
        r == name_filter(v),
{
    match v {
        Some(n) => Some(NameFilter { name: Some(ignore_case_cmp(n)) }),
        None => None,
    }
}

pub fn id_filter_of(v: Option<String>) -> (r: Option<IdFilter>)
    ensures
        r == id_filter(v),
{
    match v {
        Some(i) => Some(with_id_filter(i)),
        None => None,
    }
}

fn priority_filter_of<P>(v: Option<P>) -> (r: Option<NullableNumberComparator<P>>)
    ensures
        r == priority_filter(v),
{
    match v {
        Some(p) => Some(number_eq_cmp(p)),
        None => None,
    }
}

/// The filter for the given options, or none when no option is given.
pub fn build_filter<P>(
    team: Option<String>,
    assignee: Option<String>,
    state: Option<String>,
    label: Option<String>,
    project: Option<String>,
    milestone: Option<String>,
    cycle: Option<String>,
    priority: Option<P>,
) -> (r: Option<IssueFilter<P>>)
    ensures
        (team is None && assignee is None && state is None && label is None && project is None
            && milestone is None && cycle is None && priority is None) <==> r is None,
        r matches Some(f) ==> {
            &&& f.team == team_key_filter(team)
            &&& f.assignee == id_filter(assignee)
            &&& f.state == name_filter(state)
            &&& f.labels == name_filter(label)
            &&& f.project == id_filter(project)
            &&& f.project_milestone == id_filter(milestone)
            &&& f.cycle == id_filter(cycle)
            &&& f.priority == priority_filter(priority)
        },
{
    if team.is_none() && assignee.is_none() && state.is_none() && label.is_none() && project.is_none()
        && milestone.is_none() && cycle.is_none() && priority.is_none() {
        None
    } else {
        Some(
            IssueFilter {
                team: team_key_filter_of(team),
                assignee: id_filter_of(assignee),
                state: name_filter_of(state),
                labels: name_filter_of(label),
                project: id_filter_of(project),
                project_milestone: id_filter_of(milestone),
                cycle: id_filter_of(cycle),
                priority: priority_filter_of(priority),
            },
        )
    }
}

/// Where `--project` and `--milestone` leave an issue.
#[derive(Debug, Clone, PartialEq, Eq)]
pub struct ProjectMilestoneLink {
    /// The project to set (`projectId`), if any.
    pub project_id: Option<String>,
    /// The milestone to set (`projectMilestoneId`), if any.
    pub project_milestone_id: Option<String>,
}

/// The project a milestone name is looked up in: the one given with
/// `--project`, else `fallback_project` (the issue's current project on
/// update).
pub fn milestone_scope(project_id: &Option<String>, fallback_project: Option<String>) -> (r: Option<String>)
    ensures
        r == (if project_id is Some {
            *project_id
        } else {
            fallback_project
        }),
{
    match project_id {
        Some(p) => Some(p.clone()),
        None => fallback_project,
    }
}

/// The project to set once the project and milestone are known: the one
/// given, or the milestone's own when neither a project nor a scope was
/// known, since a milestone must belong to the issue's project.
pub open spec fn link_project_id(
    project_id: Option<String>,
    scope: Option<String>,
    milestone: Option<ResolvedMilestone>,
) -> Option<String> {
    match milestone {
        Some(m) => if project_id is None && scope is None {
            m.project_id
        } else {
            project_id
        },
        None => project_id,
    }
}

/// The milestone to set: the one found, if any.
pub open spec fn link_milestone_id(milestone: Option<ResolvedMilestone>) -> Option<String> {
    match milestone {
        Some(m) => Some(m.id),
        None => None,
    }
}

/// The project and milestone to set once both are resolved. The milestone is
/// set as resolved. The project is the one given with `--project`; when
/// neither it nor a scope was known, the milestone's own project is set,
/// since a milestone must belong to the issue's project.
pub fn apply_project_and_milestone(
    project_id: Option<String>,
    scope: &Option<String>,
    milestone: Option<ResolvedMilestone>,
) -> (r: ProjectMilestoneLink)
    ensures
        r.project_milestone_id == link_milestone_id(milestone),
        r.project_id == link_project_id(project_id, *scope, milestone),
{
    match milestone {
        Some(m) => {
            let pid = if project_id.is_none() && scope.is_none() {
                m.project_id
            } else {
                project_id
            };
            ProjectMilestoneLink { project_id: pid, project_milestone_id: Some(m.id) }
        },
        None => ProjectMilestoneLink { project_id, project_milestone_id: None },
    }
}

/// An explicit `--project` is never replaced by a milestone's project, and a
/// milestone's project is only adopted when no project was known at all.
pub proof fn lemma_explicit_project_kept(
    project_id: Option<String>,
    scope: Option<String>,
    milestone: Option<ResolvedMilestone>,
)
    ensures
        project_id is Some ==> link_project_id(project_id, scope, milestone) == project_id,
        link_project_id(project_id, scope, milestone) != project_id ==> (project_id is None && scope is None
            && milestone is Some),
{
}

/// Where the team context of an update's name lookups (state, labels) comes
/// from.
#[derive(Debug, Clone, PartialEq, Eq)]
pub enum TeamContext {
    /// No lookup needs a team, or none can be found.
    Unknown,
    /// The team given with `--team`, already resolved.
    Known(String),
    /// The team key in the issue's identifier (`ENG` in `ENG-123`), still to be
    /// resolved; a key that resolves to no team leaves the context unknown.
    ByKey(String),
}

/// Whether an update looks anything up by name within a team.
pub open spec fn spec_needs_team(state_given: bool, add_labels: int, remove_labels: int) -> bool {
    state_given || add_labels > 0 || remove_labels > 0
}

/// The team context of `issues update`: only needed when a state or labels
/// are given; then the team given with `--team`, else the key in the issue's
/// identifier.
pub fn team_context(
    state_given: bool,
    add_labels: usize,
    remove_labels: usize,
    resolved_team_id: &Option<String>,
    issue_id: &str,
) -> (r: TeamContext)
    ensures
        !spec_needs_team(state_given, add_labels as int, remove_labels as int) ==> r == TeamContext::Unknown,
        spec_needs_team(state_given, add_labels as int, remove_labels as int) ==> match resolved_team_id {
            Some(t) => r == TeamContext::Known(*t),
            None => match spec_team_key(issue_id@) {
                Some(k) => r matches TeamContext::ByKey(key) && key@ == k,
                None => r == TeamContext::Unknown,
            },
        },
{
    if !(state_given || add_labels > 0 || remove_labels > 0) {
        return TeamContext::Unknown;
    }
    match resolved_team_id {
        Some(t) => TeamContext::Known(t.clone()),
        None => match extract_team_key(issue_id) {
            Some(k) => TeamContext::ByKey(k.to_owned()),
            None => TeamContext::Unknown,
        },
    }
}

/// Whether `issues update` must read the issue's current project: a milestone
/// name given without `--project` is looked up in it.
pub fn needs_current_project(milestone: &Option<String>, project: &Option<String>) -> (r: bool)
    ensures
        r == (milestone is Some && project is None),
{
    milestone.is_some() && project.is_none()
}

} // verus!
