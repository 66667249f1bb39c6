//! `teams`: list teams, or show one.

use vstd::prelude::*;
use crate::args::PaginationArgs;

verus! {

#[derive(Debug, Clone, PartialEq, Eq)]
pub struct TeamsCommand {
    pub action: TeamsAction,
}

#[derive(Debug, Clone, PartialEq, Eq)]
pub enum TeamsAction {
    /// List all teams.
    List { pagination: PaginationArgs },
    /// Show a single team by ID.
    Get { id: String },
}

#[derive(Debug, Clone, PartialEq, Eq)]
pub struct TeamByIdVariables {
    pub id: String,
}

/// What a `teams` command asks the API for.
#[derive(Debug, Clone, PartialEq, Eq)]
pub enum TeamsRequest {
    /// The pages of the team list.
    List(PaginationArgs),
    /// One team.
    Get(TeamByIdVariables),
}

impl TeamsCommand {
    /// The request of the command.
    pub fn request(self) -> (r: TeamsRequest)
        ensures
            self.action matches TeamsAction::List { pagination } ==> r == TeamsRequest::List(pagination),
            self.action matches TeamsAction::Get { id } ==> r == TeamsRequest::Get(TeamByIdVariables { id }),
    {
        match self.action {
            TeamsAction::List { pagination } => TeamsRequest::List(pagination),
            TeamsAction::Get { id } => TeamsRequest::Get(TeamByIdVariables { id }),
        }
    }
}

} // verus!
