//! The records of the workspace that the lookups and commands read.

use vstd::prelude::*;

verus! {

/// A member of the workspace.
#[derive(Debug, Clone, PartialEq, Eq)]
pub struct User {
    pub id: String,
    pub name: String,
    pub display_name: String,
    pub email: String,
    pub active: bool,
    pub admin: bool,
    pub guest: bool,
    pub is_me: bool,
    pub avatar_url: Option<String>,
    pub description: Option<String>,
    pub created_at: String,
    pub updated_at: String,
    pub archived_at: Option<String>,
    pub last_seen: Option<String>,
}

/// The short form of a user that other records carry.
#[derive(Debug, Clone, PartialEq, Eq)]
pub struct UserSlim {
    pub id: String,
    pub name: String,
    pub display_name: String,
    pub email: String,
}

/// A team.
#[derive(Debug, Clone, PartialEq, Eq)]
pub struct Team {
    pub id: String,
    pub name: String,
    pub key: String,
    pub description: Option<String>,
    pub color: Option<String>,
    pub icon: Option<String>,
    pub cycles_enabled: bool,
    pub created_at: String,
    pub updated_at: String,
    pub archived_at: Option<String>,
}

/// A team as other records refer to it.
#[derive(Debug, Clone, PartialEq, Eq)]
pub struct TeamSlim {
    pub id: String,
    pub name: String,
    pub key: String,
}

/// A project as other records refer to it.
#[derive(Debug, Clone, PartialEq, Eq)]
pub struct ProjectSlim {
    pub id: String,
    pub name: String,
    pub slug_id: String,
}

/// An issue as other records refer to it.
#[derive(Debug, Clone, PartialEq, Eq)]
pub struct IssueSlim {
    pub id: String,
    pub identifier: String,
    pub title: String,
}

/// A label of issues, either of a team or of the whole workspace.
#[derive(Debug, Clone, PartialEq, Eq)]
pub struct IssueLabel {
    pub id: String,
    pub name: String,
    pub color: String,
    pub description: Option<String>,
    pub is_group: bool,
    pub created_at: String,
    pub updated_at: String,
    pub archived_at: Option<String>,
    /// The team the label belongs to; `None` for a workspace label.
    pub team: Option<TeamSlim>,
    pub parent: Option<IssueLabelSlim>,
}

/// A label as other records refer to it.
#[derive(Debug, Clone, PartialEq, Eq)]
pub struct IssueLabelSlim {
    pub id: String,
    pub name: String,
    pub color: String,
}

/// What a milestone lookup reads of a project milestone.
#[derive(Debug, Clone, PartialEq, Eq)]
pub struct MilestoneSummary {
    pub id: String,
    pub name: String,
    pub target_date: Option<String>,
    pub project: ProjectSlim,
}

/// A workflow state of a team.
#[derive(Debug, Clone, PartialEq, Eq)]
pub struct WorkflowState {
    pub id: String,
    pub name: String,
    pub team: TeamSlim,
}

} // verus!
