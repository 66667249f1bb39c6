//! The commands of the CLI: what each asks the API for, given its options.

pub mod attachments;
pub mod auth;
pub mod comments;
pub mod cycles;
pub mod documents;
pub mod initiatives;
pub mod issue_runs;
pub mod issues;
pub mod labels;
pub mod milestones;
pub mod projects;
pub mod teams;
pub mod users;
pub mod workflow_states;

use vstd::prelude::*;
use crate::args::GlobalArgs;

verus! {

/// The command line: one command and the options every command takes. `P`
/// is the type of the priority filter of `issues list`.
#[derive(Debug, Clone, PartialEq)]
pub struct Cli<P> {
    pub command: Commands<P>,
    pub global: GlobalArgs,
}

#[derive(Debug, Clone, PartialEq)]
pub enum Commands<P> {
    /// Manage authentication.
    Auth(auth::AuthCommand),
    /// Manage issues.
    Issues(issues::IssuesCommand<P>),
    /// Manage teams.
    Teams(teams::TeamsCommand),
    /// Manage projects.
    Projects(projects::ProjectsCommand),
    /// Manage users.
    Users(users::UsersCommand),
    /// Manage comments.
    Comments(comments::CommentsCommand),
    /// Manage issue labels.
    Labels(labels::LabelsCommand),
    /// Manage cycles.
    Cycles(cycles::CyclesCommand),
    /// Manage workflow states (`states`).
    WorkflowStates(workflow_states::WorkflowStatesCommand),
    /// Manage documents.
    Documents(documents::DocumentsCommand),
    /// Manage initiatives.
    Initiatives(initiatives::InitiativesCommand),
    /// Manage project milestones.
    Milestones(milestones::MilestonesCommand),
    /// Manage attachments.
    Attachments(attachments::AttachmentsCommand),
}

} // verus!
