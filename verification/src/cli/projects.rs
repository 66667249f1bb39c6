//! `projects`: list, show, create, update, archive and delete projects.

use vstd::prelude::*;
use crate::args::PaginationArgs;
use crate::common::MutationResponse;

verus! {

#[derive(Debug, Clone, PartialEq, Eq)]
pub struct ProjectsCommand {
    pub action: ProjectsAction,
}

#[derive(Debug, Clone, PartialEq, Eq)]
pub enum ProjectsAction {
    List { pagination: PaginationArgs },
    Get { id: String },
    Create {
        name: String,
        description: Option<String>,
        teams: Vec<String>,
        lead: Option<String>,
        start_date: Option<String>,
        target_date: Option<String>,
        color: Option<String>,
        icon: Option<String>,
        priority: Option<i32>,
        status: Option<String>,
    },
    Update {
        id: String,
        name: Option<String>,
        description: Option<String>,
        lead: Option<String>,
        start_date: Option<String>,
        target_date: Option<String>,
        color: Option<String>,
        icon: Option<String>,
        priority: Option<i32>,
        status: Option<String>,
    },
    Archive { id: String },
    Delete { id: String },
}

#[derive(Debug, Clone, PartialEq, Eq)]
pub struct ProjectCreateInput {
    pub name: String,
    pub description: Option<String>,
    pub team_ids: Vec<String>,
    pub lead_id: Option<String>,
    pub start_date: Option<String>,
    pub target_date: Option<String>,
    pub color: Option<String>,
    pub icon: Option<String>,
    pub priority: Option<i32>,
    pub status_id: Option<String>,
}

#[derive(Debug, Clone, PartialEq, Eq)]
pub struct ProjectUpdateInput {
    pub name: Option<String>,
    pub description: Option<String>,
    pub lead_id: Option<String>,
    pub start_date: Option<String>,
    pub target_date: Option<String>,
    pub color: Option<String>,
    pub icon: Option<String>,
    pub priority: Option<i32>,
    pub status_id: Option<String>,
}

#[derive(Debug, Clone, PartialEq, Eq)]
pub struct ProjectByIdVariables {
    pub id: String,
}

#[derive(Debug, Clone, PartialEq, Eq)]
pub struct ProjectCreateVariables {
    pub input: ProjectCreateInput,
}

#[derive(Debug, Clone, PartialEq, Eq)]
pub struct ProjectUpdateVariables {
    pub id: String,
    pub input: ProjectUpdateInput,
}

#[derive(Debug, Clone, PartialEq, Eq)]
pub struct ProjectArchiveVariables {
    pub id: String,
}

#[derive(Debug, Clone, PartialEq, Eq)]
pub struct ProjectDeleteVariables {
    pub id: String,
}

/// What a `projects` command asks the API for.
#[derive(Debug, Clone, PartialEq, Eq)]
pub enum ProjectsRequest {
    List(PaginationArgs),
    Get(ProjectByIdVariables),
    Create(ProjectCreateVariables),
    Update(ProjectUpdateVariables),
    Archive(ProjectArchiveVariables),
    Delete(ProjectDeleteVariables),
}

impl ProjectsCommand {
    /// The request of the command: the options are passed on as the input's
    /// fields (`--teams` as team IDs, `--lead` as lead ID, `--status` as status ID).
    pub fn request(self) -> (r: ProjectsRequest)
        ensures
            self.action matches ProjectsAction::List { pagination } ==> r == ProjectsRequest::List(pagination),
            self.action matches ProjectsAction::Get { id } ==> r == ProjectsRequest::Get(
                ProjectByIdVariables { id },
            ),
            self.action matches ProjectsAction::Create {
                name,
                description,
                teams,
                lead,
                start_date,
                target_date,
                color,
                icon,
                priority,
                status,
            } ==> r == ProjectsRequest::Create(
                ProjectCreateVariables {
                    input: ProjectCreateInput {
                        name,
                        description,
                        team_ids: teams,
                        lead_id: lead,
                        start_date,
                        target_date,
                        color,
                        icon,
                        priority,
                        status_id: status,
                    },
                },
            ),
            self.action matches ProjectsAction::Update {
                id,
                name,
                description,
                lead,
                start_date,
                target_date,
                color,
                icon,
                priority,
                status,
            } ==> r == ProjectsRequest::Update(
                ProjectUpdateVariables {
                    id,
                    input: ProjectUpdateInput {
                        name,
                        description,
                        lead_id: lead,
                        start_date,
                        target_date,
                        color,
                        icon,
                        priority,
                        status_id: status,
                    },
                },
            ),
            self.action matches ProjectsAction::Archive { id } ==> r == ProjectsRequest::Archive(
                ProjectArchiveVariables { id },
            ),
            self.action matches ProjectsAction::Delete { id } ==> r == ProjectsRequest::Delete(
                ProjectDeleteVariables { id },
            ),
    {
        match self.action {
            ProjectsAction::List { pagination } => ProjectsRequest::List(pagination),
            ProjectsAction::Get { id } => ProjectsRequest::Get(ProjectByIdVariables { id }),
            ProjectsAction::Create {
                name,
                description,
                teams,
                lead,
                start_date,
                target_date,
                color,
                icon,
                priority,
                status,
            } => ProjectsRequest::Create(
                ProjectCreateVariables {
                    input: ProjectCreateInput {
                        name,
                        description,
                        team_ids: teams,
                        lead_id: lead,
                        start_date,
                        target_date,
                        color,
                        icon,
                        priority,
                        status_id: status,
                    },
                },
            ),
            ProjectsAction::Update {
                id,
                name,
                description,
                lead,
                start_date,
                target_date,
                color,
                icon,
                priority,
                status,
            } => ProjectsRequest::Update(
                ProjectUpdateVariables {
                    id,
                    input: ProjectUpdateInput {
                        name,
                        description,
                        lead_id: lead,
                        start_date,
                        target_date,
                        color,
                        icon,
                        priority,
                        status_id: status,
                    },
                },
            ),
            ProjectsAction::Archive { id } => ProjectsRequest::Archive(ProjectArchiveVariables { id }),
            ProjectsAction::Delete { id } => ProjectsRequest::Delete(ProjectDeleteVariables { id }),
        }
    }
}

/// The answer to archiving or deleting a project.
#[derive(Debug, Clone, PartialEq, Eq)]
pub struct ProjectArchivePayload {
    pub success: bool,
}

impl ProjectArchivePayload {
    /// The printed result: the flag, no data.
    pub fn into_response(self) -> (r: MutationResponse<()>)
        ensures
            r.success == self.success,
            r.data.is_none(),
    {
        MutationResponse { success: self.success, data: None }
    }
}

/// The answer to creating or updating a project: the success flag and the record.
#[derive(Debug, Clone, PartialEq, Eq)]
pub struct ProjectPayload<T> {
    pub success: bool,
    pub project: Option<T>,
}

impl<T> ProjectPayload<T> {
    /// The printed result: the success flag and the record.
    pub fn into_response(self) -> (r: MutationResponse<T>)
        ensures
            r.success == self.success,
            r.data == self.project,
    {
        MutationResponse { success: self.success, data: self.project }
    }
}

} // verus!
