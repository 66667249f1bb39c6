//! `users`: list users, show one, or show the authenticated user.

use vstd::prelude::*;
use crate::args::PaginationArgs;

verus! {

#[derive(Debug, Clone, PartialEq, Eq)]
pub struct UsersCommand {
    pub action: UsersAction,
}

#[derive(Debug, Clone, PartialEq, Eq)]
pub enum UsersAction {
    List { pagination: PaginationArgs },
    Get { id: String },
    Me,
}

/// What a `users` command asks the API for.
#[derive(Debug, Clone, PartialEq, Eq)]
pub enum UsersRequest {
    List(PaginationArgs),
    /// The user with this ID.
    Get(String),
    /// The authenticated user.
    Viewer,
}

impl UsersCommand {
    /// The request of the command.
    pub fn request(self) -> (r: UsersRequest)
        ensures
            self.action matches UsersAction::List { pagination } ==> r == UsersRequest::List(pagination),
            self.action matches UsersAction::Get { id } ==> r == UsersRequest::Get(id),
            self.action matches UsersAction::Me ==> r == UsersRequest::Viewer,
    {
        match self.action {
            UsersAction::List { pagination } => UsersRequest::List(pagination),
            UsersAction::Get { id } => UsersRequest::Get(id),
            UsersAction::Me => UsersRequest::Viewer,
        }
    }
}

} // verus!
