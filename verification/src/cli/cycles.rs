//! `cycles`: list cycles, or show one.

use vstd::prelude::*;
use crate::args::PaginationArgs;

verus! {

#[derive(Debug, Clone, PartialEq, Eq)]
pub struct CyclesCommand {
    pub action: CyclesAction,
}

#[derive(Debug, Clone, PartialEq, Eq)]
pub enum CyclesAction {
    List { pagination: PaginationArgs },
    Get { id: String },
}

#[derive(Debug, Clone, PartialEq, Eq)]
pub struct CycleByIdVariables {
    pub id: String,
}

/// What a `cycles` command asks the API for.
#[derive(Debug, Clone, PartialEq, Eq)]
pub enum CyclesRequest {
    List(PaginationArgs),
    Get(CycleByIdVariables),
}

impl CyclesCommand {
    /// The request of the command.
    pub fn request(self) -> (r: CyclesRequest)
        ensures
            self.action matches CyclesAction::List { pagination } ==> r == CyclesRequest::List(pagination),
            self.action matches CyclesAction::Get { id } ==> r == CyclesRequest::Get(CycleByIdVariables { id }),
    {
        match self.action {
            CyclesAction::List { pagination } => CyclesRequest::List(pagination),
            CyclesAction::Get { id } => CyclesRequest::Get(CycleByIdVariables { id }),
        }
    }
}

} // verus!
