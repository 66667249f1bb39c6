//! Options shared by every command.

use vstd::prelude::*;
use crate::common::{OutputFormat, PaginationOrderBy, clone_opt_string};
use crate::paginator::{PageRequest, PaginationParams};

verus! {

/// Options that apply to every command.
#[derive(Debug, Clone, PartialEq, Eq)]
pub struct GlobalArgs {
    /// Print JSON instead of the human-readable form.
    pub json: bool,
    /// API key given on the command line (or through `LINEAR_API_KEY`).
    pub api_key: Option<String>,
    /// Verbose output.
    pub verbose: bool,
}

impl GlobalArgs {
    /// JSON when `--json` was given, the human-readable form otherwise.
    pub fn output_format(&self) -> (r: OutputFormat)
        ensures
            r == (if self.json {
                OutputFormat::Json
            } else {
                OutputFormat::Pretty
            }),
    {
        if self.json {
            OutputFormat::Json
        } else {
            OutputFormat::Pretty
        }
    }
}

/// The field lists are ordered by.
#[derive(Debug, Clone, Copy, PartialEq, Eq)]
pub enum OrderBy {
    CreatedAt,
    UpdatedAt,
}

impl OrderBy {
    /// The field's name in the API.
    pub fn as_str(self) -> (r: &'static str)
        ensures
            r@ == (match self {
                OrderBy::CreatedAt => "createdAt"@,
                OrderBy::UpdatedAt => "updatedAt"@,
            }),
    {
        match self {
            OrderBy::CreatedAt => "createdAt",
            OrderBy::UpdatedAt => "updatedAt",
        }
    }

    /// The same ordering as the API's enumeration.
    pub fn to_order_by(self) -> (r: PaginationOrderBy)
        ensures
            r == (match self {
                OrderBy::CreatedAt => PaginationOrderBy::CreatedAt,
                OrderBy::UpdatedAt => PaginationOrderBy::UpdatedAt,
            }),
    {
        match self {
            OrderBy::CreatedAt => PaginationOrderBy::CreatedAt,
            OrderBy::UpdatedAt => PaginationOrderBy::UpdatedAt,
        }
    }
}

/// Options of every list command.
#[derive(Debug, Clone, PartialEq, Eq)]
pub struct PaginationArgs {
    /// Maximum number of results (50 by default).
    pub limit: u32,
    /// Cursor for manual pagination.
    pub after: Option<String>,
    /// Fetch all results.
    pub all: bool,
    /// Include archived items.
    pub include_archived: bool,
    /// Ordering of the results.
    pub order_by: OrderBy,
}

/// Largest page the CLI asks the API for.
pub const MAX_PAGE_SIZE: u32 = 250;

impl PaginationArgs {
    /// The paginator settings: the limit as maximum, the cursor, whether to
    /// fetch all, and pages of the limit's size, at least 1 and at most 250.
    pub fn to_paginator_params(&self) -> (r: PaginationParams)
        ensures
            r.limit == Some(self.limit),
            r.after == self.after,
            r.all == self.all,
            r.page_size == (if self.limit < 1 {
                1
            } else if self.limit > MAX_PAGE_SIZE {
                MAX_PAGE_SIZE
            } else {
                self.limit
            }),
    {
        let at_least_one = if self.limit < 1 { 1 } else { self.limit };
        let page_size = if at_least_one < MAX_PAGE_SIZE { at_least_one } else { MAX_PAGE_SIZE };
        PaginationParams {
            limit: Some(self.limit),
            after: clone_opt_string(&self.after),
            all: self.all,
            page_size,
        }
    }
}


/// The variables of one page of a list query.
#[derive(Debug, Clone, PartialEq, Eq)]
pub struct ListVariables {
    pub first: Option<u32>,
    pub after: Option<String>,
    pub include_archived: Option<bool>,
    pub order_by: Option<PaginationOrderBy>,
}

pub type AttachmentsListVariables = ListVariables;

pub type CyclesListVariables = ListVariables;

pub type DocumentsListVariables = ListVariables;

pub type InitiativesListVariables = ListVariables;

pub type ProjectsListVariables = ListVariables;

pub type ProjectMilestonesListVariables = ListVariables;

pub type TeamsListVariables = ListVariables;

pub type UsersListVariables = ListVariables;

pub type WorkflowStatesListVariables = ListVariables;

impl PaginationArgs {
    /// The variables of the page the paginator asks for: its size and cursor,
    /// with the list's archive and ordering options.
    pub fn page_variables(&self, req: &PageRequest) -> (r: ListVariables)
        ensures
            r.first == Some(req.page_size),
            r.after == req.cursor,
            r.include_archived == Some(self.include_archived),
            r.order_by == Some(
                match self.order_by {
                    OrderBy::CreatedAt => PaginationOrderBy::CreatedAt,
                    OrderBy::UpdatedAt => PaginationOrderBy::UpdatedAt,
                },
            ),
    {
        ListVariables {
            first: Some(req.page_size),
            after: clone_opt_string(&req.cursor),
            include_archived: Some(self.include_archived),
            order_by: Some(self.order_by.to_order_by()),
        }
    }
}
} // verus!
