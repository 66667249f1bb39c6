//! `states`: list the workflow states.

use vstd::prelude::*;
use crate::args::PaginationArgs;

verus! {

#[derive(Debug, Clone, PartialEq, Eq)]
pub struct WorkflowStatesCommand {
    pub action: WorkflowStatesAction,
}

#[derive(Debug, Clone, PartialEq, Eq)]
pub enum WorkflowStatesAction {
    /// List workflow states.
    List { pagination: PaginationArgs },
}

impl WorkflowStatesCommand {
    /// The list options of the command.
    pub fn request(self) -> (r: PaginationArgs)
        ensures
            self.action matches WorkflowStatesAction::List { pagination } && r == pagination,
    {
        match self.action {
            WorkflowStatesAction::List { pagination } => pagination,
        }
    }
}

} // verus!
