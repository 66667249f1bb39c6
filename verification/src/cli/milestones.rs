//! `milestones`: list, show, create and update project milestones. A project
//! given by name or slug is looked up first.

use vstd::prelude::*;
use crate::args::PaginationArgs;
use crate::common::MutationResponse;
use crate::filters::{IdFilter, StringComparator, ignore_case_cmp, is_ignore_case, is_with_id, with_id_filter};
use crate::resolve::Lookup;

verus! {

#[derive(Debug, Clone, PartialEq, Eq)]
pub struct MilestonesCommand {
    pub action: MilestonesAction,
}

#[derive(Debug, Clone, PartialEq, Eq)]
pub enum MilestonesAction {
    /// List milestones, of one project when given (ID, name or slug).
    List { pagination: PaginationArgs, project: Option<String> },
    Get { id: String },
    Create { name: String, project: String, description: Option<String>, target_date: Option<String> },
    Update { id: String, name: Option<String>, description: Option<String>, target_date: Option<String> },
}

/// The states a milestone can be in.
#[derive(Debug, Clone, Copy, PartialEq, Eq)]
pub enum ProjectMilestoneStatus {
    Done,
    Next,
    Overdue,
    Unstarted,
}

#[derive(Debug, Clone, PartialEq, Eq)]
pub struct ProjectMilestoneCreateInput {
    pub name: String,
    pub project_id: String,
    pub description: Option<String>,
    pub target_date: Option<String>,
}

#[derive(Debug, Clone, PartialEq, Eq)]
pub struct ProjectMilestoneUpdateInput {
    pub name: Option<String>,
    pub description: Option<String>,
    pub target_date: Option<String>,
}

#[derive(Debug, Clone, PartialEq, Eq)]
pub struct ProjectMilestoneByIdVariables {
    pub id: String,
}

#[derive(Debug, Clone, PartialEq, Eq)]
pub struct ProjectMilestoneCreateVariables {
    pub input: ProjectMilestoneCreateInput,
}

#[derive(Debug, Clone, PartialEq, Eq)]
pub struct ProjectMilestoneUpdateVariables {
    pub id: String,
    pub input: ProjectMilestoneUpdateInput,
}

/// The filter of a milestone query, in the API's shape: the project by ID
/// (`{ id: { eq } }`), the name without regard to ASCII case
/// (`{ eqIgnoreCase }`).
#[derive(Debug, Clone, PartialEq, Eq)]
pub struct MilestoneFilter {
    pub project: Option<IdFilter>,
    pub name: Option<StringComparator>,
}

/// The filter for a project and a name, or none when neither is given.
pub fn milestone_filter(project_id: Option<&str>, name: Option<&str>) -> (r: Option<MilestoneFilter>)
    ensures
        (project_id is None && name is None) <==> r is None,
        r matches Some(f) ==> (match project_id {
            Some(p) => f.project matches Some(pf) && is_with_id(pf, p@),
            None => f.project is None,
        }) && (match name {
            Some(n) => f.name matches Some(c) && is_ignore_case(c, n@),
            None => f.name is None,
        }),
{
    if project_id.is_none() && name.is_none() {
        return None;
    }
    let project = match project_id {
        Some(p) => Some(with_id_filter(p.to_owned())),
        None => None,
    };
    let name = match name {
        Some(n) => Some(ignore_case_cmp(n.to_owned())),
        None => None,
    };
    Some(MilestoneFilter { project, name })
}

/// A milestone creation waiting for its project to be looked up.
#[derive(Debug, Clone, PartialEq, Eq)]
pub struct PendingMilestoneCreate {
    pub project: String,
    pub name: String,
    pub description: Option<String>,
    pub target_date: Option<String>,
}

/// What a `milestones` command asks for.
#[derive(Debug, Clone, PartialEq, Eq)]
pub enum MilestonesRequest {
    /// The pages of the milestone list, within the project (once this lookup
    /// is made) when one is given.
    List { pagination: PaginationArgs, project: Option<Lookup> },
    Get(ProjectMilestoneByIdVariables),
    Create(PendingMilestoneCreate),
    Update(ProjectMilestoneUpdateVariables),
}

impl MilestonesCommand {
    /// The request of the command.
    pub fn request(self) -> (r: MilestonesRequest)
        ensures
            self.action matches MilestonesAction::List { pagination, project } ==> r == (MilestonesRequest::List {
                pagination,
                project: match project {
                    Some(p) => Some(Lookup::Project(p)),
                    None => None::<Lookup>,
                },
            }),
            self.action matches MilestonesAction::Get { id } ==> r == MilestonesRequest::Get(
                ProjectMilestoneByIdVariables { id },
            ),
            self.action matches MilestonesAction::Create { name, project, description, target_date } ==> r
                == MilestonesRequest::Create(PendingMilestoneCreate { project, name, description, target_date }),
            self.action matches MilestonesAction::Update { id, name, description, target_date } ==> r
                == MilestonesRequest::Update(
                ProjectMilestoneUpdateVariables {
                    id,
                    input: ProjectMilestoneUpdateInput { name, description, target_date },
                },
            ),
    {
        match self.action {
            MilestonesAction::List { pagination, project } => {
                let project = match project {
                    Some(p) => Some(Lookup::Project(p)),
                    None => None,
                };
                MilestonesRequest::List { pagination, project }
            },
            MilestonesAction::Get { id } => MilestonesRequest::Get(ProjectMilestoneByIdVariables { id }),
            MilestonesAction::Create { name, project, description, target_date } => MilestonesRequest::Create(
                PendingMilestoneCreate { project, name, description, target_date },
            ),
            MilestonesAction::Update { id, name, description, target_date } => MilestonesRequest::Update(
                ProjectMilestoneUpdateVariables {
                    id,
                    input: ProjectMilestoneUpdateInput { name, description, target_date },
                },
            ),
        }
    }
}

impl PendingMilestoneCreate {
    /// The project the milestone goes in, to look up first.
    pub fn project_lookup(&self) -> (r: Lookup)
        ensures
            r == Lookup::Project(self.project),
    {
        Lookup::Project(self.project.clone())
    }

    /// The creation once the project is resolved.
    pub fn finish(self, project_id: String) -> (r: ProjectMilestoneCreateVariables)
        ensures
            r.input == (ProjectMilestoneCreateInput {
                name: self.name,
                project_id,
                description: self.description,
                target_date: self.target_date,
            }),
    {
        ProjectMilestoneCreateVariables {
            input: ProjectMilestoneCreateInput {
                name: self.name,
                project_id,
                description: self.description,
                target_date: self.target_date,
            },
        }
    }
}

/// The answer to creating or updating a milestone: the success flag and the record.
#[derive(Debug, Clone, PartialEq, Eq)]
pub struct ProjectMilestonePayload<T> {
    pub success: bool,
    pub project_milestone: T,
}

impl<T> ProjectMilestonePayload<T> {
    /// The printed result: the success flag and the record.
    pub fn into_response(self) -> (r: MutationResponse<T>)
        ensures
            r.success == self.success,
            r.data == Some(self.project_milestone),
    {
        MutationResponse { success: self.success, data: Some(self.project_milestone) }
    }
}

} // verus!
