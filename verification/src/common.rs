//! Shapes shared by every entity: pages of results, the page information the
//! API returns, and the envelopes the CLI prints.

use vstd::prelude::*;

verus! {

/// Cursor information of one page, as the API returns it.
#[derive(Debug, Clone, PartialEq, Eq)]
pub struct PageInfo {
    pub has_next_page: bool,
    pub has_previous_page: bool,
    pub end_cursor: Option<String>,
    pub start_cursor: Option<String>,
}

/// One page of nodes of some entity.
#[derive(Debug, Clone, PartialEq, Eq)]
pub struct Connection<T> {
    pub nodes: Vec<T>,
    pub page_info: PageInfo,
}

/// A page of results that can be taken apart into its page information and
/// its nodes.
pub trait Paginatable: Sized {
    type Node;

    spec fn page_info_of(&self) -> PageInfo;

    spec fn nodes_of(self) -> Seq<Self::Node>;

    fn page_info(&self) -> (r: &PageInfo)
        ensures
            *r == self.page_info_of(),
    ;

    fn into_nodes(self) -> (r: Vec<Self::Node>)
        ensures
            r@ == self.nodes_of(),
    ;
}

impl<T> Paginatable for Connection<T> {
    type Node = T;

    open spec fn page_info_of(&self) -> PageInfo {
        self.page_info
    }

    open spec fn nodes_of(self) -> Seq<T> {
        self.nodes@
    }

    fn page_info(&self) -> (r: &PageInfo) {
        &self.page_info
    }

    fn into_nodes(self) -> (r: Vec<T>) {
        self.nodes
    }
}

/// The page information the CLI reports with a list: whether more can be
/// fetched, and from which cursor.
#[derive(Debug, Clone, PartialEq, Eq)]
pub struct PageInfoResponse {
    pub has_next_page: bool,
    pub end_cursor: Option<String>,
}

/// A list as the CLI prints it.
#[derive(Debug, Clone, PartialEq, Eq)]
pub struct ListResponse<T> {
    pub nodes: Vec<T>,
    pub page_info: PageInfoResponse,
}

/// The result of a mutation as the CLI prints it.
#[derive(Debug, Clone, PartialEq, Eq)]
pub struct MutationResponse<T> {
    pub success: bool,
    pub data: Option<T>,
}

/// The orderings the API accepts for lists.
#[derive(Debug, Clone, Copy, PartialEq, Eq)]
pub enum PaginationOrderBy {
    CreatedAt,
    UpdatedAt,
}

impl PaginationOrderBy {
    /// The ordering's name in the API.
    pub fn as_str(self) -> (r: &'static str)
        ensures
            r@ == (match self {
                PaginationOrderBy::CreatedAt => "createdAt"@,
                PaginationOrderBy::UpdatedAt => "updatedAt"@,
            }),
    {
        match self {
            PaginationOrderBy::CreatedAt => "createdAt",
            PaginationOrderBy::UpdatedAt => "updatedAt",
        }
    }
}

/// How results are printed.
#[derive(Debug, Clone, Copy, PartialEq, Eq)]
pub enum OutputFormat {
    Json,
    Pretty,
}

/// A copy of an optional string.
pub fn clone_opt_string(s: &Option<String>) -> (r: Option<String>)
    ensures
        r == *s,
{
    match s {
        Some(v) => Some(v.clone()),
        None => None,
    }
}

impl<'a> From<&'a PageInfo> for PageInfoResponse {
    /// The reported page information of a page: its next-page flag and end
    /// cursor.
    fn from(pi: &'a PageInfo) -> (r: PageInfoResponse) {
        PageInfoResponse { has_next_page: pi.has_next_page, end_cursor: clone_opt_string(&pi.end_cursor) }
    }
}

impl<'a> vstd::std_specs::convert::FromSpecImpl<&'a PageInfo> for PageInfoResponse {
    open spec fn obeys_from_spec() -> bool {
        true
    }

    open spec fn from_spec(pi: &'a PageInfo) -> PageInfoResponse {
        PageInfoResponse { has_next_page: pi.has_next_page, end_cursor: pi.end_cursor }
    }
}

} // verus!
