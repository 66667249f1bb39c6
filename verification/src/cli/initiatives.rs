//! `initiatives`: list initiatives, or show one.

use vstd::prelude::*;
use crate::args::PaginationArgs;

verus! {

#[derive(Debug, Clone, PartialEq, Eq)]
pub struct InitiativesCommand {
    pub action: InitiativesAction,
}

#[derive(Debug, Clone, PartialEq, Eq)]
pub enum InitiativesAction {
    List { pagination: PaginationArgs },
    Get { id: String },
}

#[derive(Debug, Clone, PartialEq, Eq)]
pub struct InitiativeByIdVariables {
    pub id: String,
}

/// The states an initiative can be in.
#[derive(Debug, Clone, Copy, PartialEq, Eq)]
pub enum InitiativeStatus {
    Active,
    Completed,
    Planned,
}

/// What an `initiatives` command asks the API for.
#[derive(Debug, Clone, PartialEq, Eq)]
pub enum InitiativesRequest {
    List(PaginationArgs),
    Get(InitiativeByIdVariables),
}

impl InitiativesCommand {
    /// The request of the command.
    pub fn request(self) -> (r: InitiativesRequest)
        ensures
            self.action matches InitiativesAction::List { pagination } ==> r == InitiativesRequest::List(
                pagination,
            ),
            self.action matches InitiativesAction::Get { id } ==> r == InitiativesRequest::Get(
                InitiativeByIdVariables { id },
            ),
    {
        match self.action {
            InitiativesAction::List { pagination } => InitiativesRequest::List(pagination),
            InitiativesAction::Get { id } => InitiativesRequest::Get(InitiativeByIdVariables { id }),
        }
    }
}

} // verus!
