//! `labels`: list, show, create, update and delete issue labels. A label
//! given by name, a team and a parent label are looked up first.

use vstd::prelude::*;
use crate::args::PaginationArgs;
use crate::common::MutationResponse;
use crate::common::clone_opt_string;
use crate::resolve::Lookup;

verus! {

#[derive(Debug, Clone, PartialEq, Eq)]
pub struct LabelsCommand {
    pub action: LabelsAction,
}

#[derive(Debug, Clone, PartialEq, Eq)]
pub enum LabelsAction {
    List { pagination: PaginationArgs },
    /// A label by ID, or by name (which must be unambiguous).
    Get { id: String },
    Create {
        name: String,
        color: Option<String>,
        description: Option<String>,
        /// Team key, name or ID to scope the label to (none for a workspace label).
        team: Option<String>,
        /// Parent label ID or name (for label groups).
        parent: Option<String>,
    },
    Update {
        id: String,
        name: Option<String>,
        color: Option<String>,
        description: Option<String>,
        parent: Option<String>,
    },
    Delete { id: String },
}

#[derive(Debug, Clone, PartialEq, Eq)]
pub struct IssueLabelCreateInput {
    pub name: String,
    pub color: Option<String>,
    pub description: Option<String>,
    pub team_id: Option<String>,
    pub parent_id: Option<String>,
}

#[derive(Debug, Clone, PartialEq, Eq)]
pub struct IssueLabelUpdateInput {
    pub name: Option<String>,
    pub color: Option<String>,
    pub description: Option<String>,
    pub parent_id: Option<String>,
}

#[derive(Debug, Clone, PartialEq, Eq)]
pub struct IssueLabelCreateVariables {
    pub input: IssueLabelCreateInput,
}

/// A label creation waiting for its team and parent to be looked up (the
/// parent within the team).
#[derive(Debug, Clone, PartialEq, Eq)]
pub struct PendingLabelCreate {
    pub name: String,
    pub color: Option<String>,
    pub description: Option<String>,
    pub team: Option<String>,
    pub parent: Option<String>,
}

/// A label update waiting for its label and parent to be looked up.
#[derive(Debug, Clone, PartialEq, Eq)]
pub struct PendingLabelUpdate {
    pub label: String,
    pub name: Option<String>,
    pub color: Option<String>,
    pub description: Option<String>,
    pub parent: Option<String>,
}

/// What a `labels` command asks for.
#[derive(Debug, Clone, PartialEq, Eq)]
pub enum LabelsRequest {
    List(PaginationArgs),
    /// Make this lookup (the label, in no team), then show the label.
    Get(Lookup),
    Create(PendingLabelCreate),
    Update(PendingLabelUpdate),
    /// Make this lookup (the label, in no team), then delete the label.
    Delete(Lookup),
}

impl LabelsCommand {
    /// The request of the command.
    pub fn request(self) -> (r: LabelsRequest)
        ensures
            self.action matches LabelsAction::List { pagination } ==> r == LabelsRequest::List(pagination),
            self.action matches LabelsAction::Get { id } ==> r == LabelsRequest::Get(
                Lookup::Label { value: id, team_id: None },
            ),
            self.action matches LabelsAction::Create { name, color, description, team, parent } ==> r
                == LabelsRequest::Create(PendingLabelCreate { name, color, description, team, parent }),
            self.action matches LabelsAction::Update { id, name, color, description, parent } ==> r
                == LabelsRequest::Update(PendingLabelUpdate { label: id, name, color, description, parent }),
            self.action matches LabelsAction::Delete { id } ==> r == LabelsRequest::Delete(
                Lookup::Label { value: id, team_id: None },
            ),
    {
        match self.action {
            LabelsAction::List { pagination } => LabelsRequest::List(pagination),
            LabelsAction::Get { id } => LabelsRequest::Get(Lookup::Label { value: id, team_id: None }),
            LabelsAction::Create { name, color, description, team, parent } => LabelsRequest::Create(
                PendingLabelCreate { name, color, description, team, parent },
            ),
            LabelsAction::Update { id, name, color, description, parent } => LabelsRequest::Update(
                PendingLabelUpdate { label: id, name, color, description, parent },
            ),
            LabelsAction::Delete { id } => LabelsRequest::Delete(Lookup::Label { value: id, team_id: None }),
        }
    }
}

impl PendingLabelCreate {
    /// The team to look up first, when one was given.
    pub fn team_lookup(&self) -> (r: Option<Lookup>)
        ensures
            r == match self.team {
                Some(t) => Some(Lookup::Team(t)),
                None => None::<Lookup>,
            },
    {
        match &self.team {
            Some(t) => Some(Lookup::Team(t.clone())),
            None => None,
        }
    }

    /// The parent label to look up, when one was given: within the team the
    /// label is created in (preferring that team's label of the name).
    pub fn parent_lookup(&self, team_id: &Option<String>) -> (r: Option<Lookup>)
        ensures
            r == match self.parent {
                Some(p) => Some(Lookup::Label { value: p, team_id: *team_id }),
                None => None::<Lookup>,
            },
    {
        match &self.parent {
            Some(p) => Some(Lookup::Label { value: p.clone(), team_id: clone_opt_string(team_id) }),
            None => None,
        }
    }

    /// The creation once the team (when given) and the parent (when given)
    /// are resolved; a team that was not given stays absent.
    pub fn finish(self, team_id: Option<String>, parent_id: Option<String>) -> (r: IssueLabelCreateVariables)
        ensures
            r.input == (IssueLabelCreateInput {
                name: self.name,
                color: self.color,
                description: self.description,
                team_id,
                parent_id,
            }),
    {
        IssueLabelCreateVariables {
            input: IssueLabelCreateInput {
                name: self.name,
                color: self.color,
                description: self.description,
                team_id,
                parent_id,
            },
        }
    }
}

impl PendingLabelUpdate {
    /// The label to update, looked up in no team.
    pub fn label_lookup(&self) -> (r: Lookup)
        ensures
            r == (Lookup::Label { value: self.label, team_id: None }),
    {
        Lookup::Label { value: self.label.clone(), team_id: None }
    }

    /// The new parent label to look up, when one was given, in no team.
    pub fn parent_lookup(&self) -> (r: Option<Lookup>)
        ensures
            r == match self.parent {
                Some(p) => Some(Lookup::Label { value: p, team_id: None }),
                None => None::<Lookup>,
            },
    {
        match &self.parent {
            Some(p) => Some(Lookup::Label { value: p.clone(), team_id: None }),
            None => None,
        }
    }

    /// The update's input once the parent (when given) is resolved.
    pub fn finish(self, parent_id: Option<String>) -> (r: IssueLabelUpdateInput)
        ensures
            r == (IssueLabelUpdateInput {
                name: self.name,
                color: self.color,
                description: self.description,
                parent_id,
            }),
    {
        IssueLabelUpdateInput { name: self.name, color: self.color, description: self.description, parent_id }
    }
}

/// The answer to creating or updating a label: the success flag and the record.
#[derive(Debug, Clone, PartialEq, Eq)]
pub struct IssueLabelPayload<T> {
    pub success: bool,
    pub issue_label: T,
}

impl<T> IssueLabelPayload<T> {
    /// The printed result: the success flag and the record.
    pub fn into_response(self) -> (r: MutationResponse<T>)
        ensures
            r.success == self.success,
            r.data == Some(self.issue_label),
    {
        MutationResponse { success: self.success, data: Some(self.issue_label) }
    }
}

} // verus!
