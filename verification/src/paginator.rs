//! Fetching a list page by page. The network work is done by the caller; the
//! paginator decides the size of each request, the cursor to continue from,
//! and when to stop, and collects the nodes.

use vstd::prelude::*;
use crate::common::{Connection, ListResponse, PageInfoResponse, clone_opt_string};

verus! {

/// What a list command asks for.
#[derive(Debug, Clone, PartialEq, Eq)]
pub struct PaginationParams {
    /// Maximum number of nodes to return (50 when absent), unless `all`.
    pub limit: Option<u32>,
    /// Cursor to start after.
    pub after: Option<String>,
    /// Fetch every page, without a maximum.
    pub all: bool,
    /// Nodes to request per page.
    pub page_size: u32,
}

impl Default for PaginationParams {
    fn default() -> (r: Self)
        ensures
            r.limit == Some(50u32),
            r.after.is_none(),
            !r.all,
            r.page_size == 50,
    {
        PaginationParams { limit: Some(50), after: None, all: false, page_size: 50 }
    }
}

/// The most nodes a run may return: none when fetching all, else the limit
/// (50 when no limit is given).
pub open spec fn spec_max(p: PaginationParams) -> Option<u32> {
    if p.all {
        None
    } else {
        Some(
            match p.limit {
                Some(l) => l,
                None => 50u32,
            },
        )
    }
}

/// Nodes asked for per request: the page size, or the maximum when that is
/// smaller.
pub open spec fn spec_request_size(p: PaginationParams) -> u32 {
    match spec_max(p) {
        Some(m) => if m < p.page_size {
            m
        } else {
            p.page_size
        },
        None => p.page_size,
    }
}

/// Whether a run stops once it holds `all` and the last page said `has_next`:
/// when the maximum is reached, or when there is no further page.
pub open spec fn finished<T>(max: Option<u32>, all: Seq<T>, has_next: bool) -> bool {
    ||| (max is Some && all.len() >= max->0)
    ||| !has_next
}

/// The nodes a finished run returns: everything collected, cut at the maximum.
pub open spec fn kept<T>(max: Option<u32>, all: Seq<T>) -> Seq<T> {
    match max {
        Some(m) => if all.len() >= m {
            all.take(m as int)
        } else {
            all
        },
        None => all,
    }
}

/// The next request to send: how many nodes, after which cursor.
#[derive(Debug, Clone, PartialEq, Eq)]
pub struct PageRequest {
    pub page_size: u32,
    pub cursor: Option<String>,
}

/// A run in progress: its maximum, its request size and the nodes collected.
#[derive(Debug)]
pub struct Paginator<T> {
    pub max: Option<u32>,
    pub page_size: u32,
    pub nodes: Vec<T>,
}

/// What to do after a page arrived: fetch the next one, or print the result.
#[derive(Debug)]
pub enum PageStep<T> {
    Next(Paginator<T>, PageRequest),
    Done(ListResponse<T>),
}

impl<T> Paginator<T> {
    /// Begin a run: nothing collected yet, and the first request starts at the
    /// cursor the caller gave.
    pub fn start(params: &PaginationParams) -> (r: (Paginator<T>, PageRequest))
        ensures
            r.0.max == spec_max(*params),
            r.0.page_size == spec_request_size(*params),
            r.0.nodes@ == Seq::<T>::empty(),
            r.1.page_size == r.0.page_size,
            r.1.cursor == params.after,
    {
        let max: Option<u32> = if params.all {
            None
        } else {
            match params.limit {
                Some(l) => Some(l),
                None => Some(50),
            }
        };
        let page_size = match max {
            Some(m) => if m < params.page_size {
                m
            } else {
                params.page_size
            },
            None => params.page_size,
        };
        let p = Paginator { max, page_size, nodes: Vec::new() };
        let req = PageRequest { page_size, cursor: clone_opt_string(&params.after) };
        (p, req)
    }

    /// Take in the page that the last request returned. The run ends when the
    /// maximum is reached (the nodes are cut at it) or when the page was the
    /// last one; otherwise the next request continues from this page's end
    /// cursor with the same size.
    pub fn receive(self, connection: Connection<T>) -> (r: PageStep<T>)
        ensures
            ({
                let all = self.nodes@ + connection.nodes@;
                let has_next = connection.page_info.has_next_page;
                match r {
                    PageStep::Done(resp) => {
                        &&& finished(self.max, all, has_next)
                        &&& resp.nodes@ == kept(self.max, all)
                        &&& resp.page_info.has_next_page == has_next
                        &&& resp.page_info.end_cursor == connection.page_info.end_cursor
                    },
                    PageStep::Next(p, req) => {
                        &&& !finished(self.max, all, has_next)
                        &&& p.max == self.max
                        &&& p.page_size == self.page_size
                        &&& p.nodes@ == all
                        &&& req.page_size == self.page_size
                        &&& req.cursor == connection.page_info.end_cursor
                    },
                }
            }),
    {
        let Paginator { max, page_size, nodes } = self;
        let Connection { nodes: page_nodes, page_info } = connection;
        let mut all = nodes;
        let mut page_nodes = page_nodes;
        let ghost old_all = all@;
        let ghost old_page = page_nodes@;
        all.append(&mut page_nodes);
        assert(all@ =~= old_all + old_page);
        let has_next = page_info.has_next_page;
        let last = PageInfoResponse::from(&page_info);
        match max {
            Some(m) => {
                if all.len() >= m as usize {
                    all.truncate(m as usize);
                    return PageStep::Done(ListResponse { nodes: all, page_info: last });
                }
            },
            None => {},
        }
        if !has_next {
            return PageStep::Done(ListResponse { nodes: all, page_info: last });
        }
        let req = PageRequest { page_size, cursor: page_info.end_cursor };
        PageStep::Next(Paginator { max, page_size, nodes: all }, req)
    }
}

/// A finished run never returns more nodes than its maximum, and what it
/// returns is the start of everything collected, in order.
pub proof fn lemma_kept_within_max<T>(max: Option<u32>, all: Seq<T>)
    ensures
        max is Some ==> kept(max, all).len() <= max->0,
        all.take(kept(max, all).len() as int) == kept(max, all),
        kept(max, all).len() <= all.len(),
{
    assert(all.take(all.len() as int) =~= all);
    match max {
        Some(m) => {
            if all.len() >= m {
                assert(all.take(m as int).take(m as int) =~= all.take(m as int));
            }
        },
        None => {},
    }
}

/// A request never asks for more nodes than the maximum nor than the page
/// size the caller set.
pub proof fn lemma_request_size_bounded(p: PaginationParams)
    ensures
        spec_request_size(p) <= p.page_size,
        spec_max(p) is Some ==> spec_request_size(p) <= spec_max(p)->0,
{
}

/// The smaller of two counts.
pub open spec fn min_nat(a: nat, b: nat) -> nat {
    if a <= b {
        a
    } else {
        b
    }
}

/// The page a server holding `list` answers to a request for `size` nodes
/// after the first `offset`.
pub open spec fn page_of<T>(list: Seq<T>, offset: nat, size: nat) -> Seq<T> {
    list.subrange(min_nat(offset, list.len()) as int, min_nat(offset + size, list.len()) as int)
}

/// Whether that page says a further page exists.
pub open spec fn page_has_next<T>(list: Seq<T>, offset: nat, size: nat) -> bool {
    offset + size < list.len()
}

/// What a run that keeps every node collects from `list` served in pages of
/// `size`: each page continues the nodes of the ones before, so after `k`
/// pages it holds the first `k * size` nodes of the list (or all of them).
pub proof fn lemma_pages_concatenate<T>(list: Seq<T>, size: nat, k: nat)
    ensures
        list.take(min_nat(k * size, list.len()) as int) + page_of(list, k * size, size) == list.take(
            min_nat((k + 1) * size, list.len()) as int,
        ),
{
    assert((k + 1) * size == k * size + size) by (nonlinear_arith);
    assert(list.take(min_nat(k * size, list.len()) as int) + page_of(list, k * size, size) =~= list.take(
        min_nat((k + 1) * size, list.len()) as int,
    ));
}

proof fn lemma_kept_at_stop<T>(max: Option<u32>, list: Seq<T>, n: nat, has_next: bool)
    requires
        n <= list.len(),
        has_next <==> n < list.len(),
        finished(max, list.take(n as int), has_next),
    ensures
        kept(max, list.take(n as int)) == match max {
            Some(m) => list.take(min_nat(m as nat, list.len()) as int),
            None => list,
        },
{
    match max {
        Some(m) => {
            if n >= m {
                assert(list.take(n as int).take(m as int) =~= list.take(m as int));
            } else {
                assert(list.take(n as int) =~= list);
            }
        },
        None => {
            assert(list.take(n as int) =~= list);
        },
    }
}

/// A run over `list` served in pages of `size` returns the first `max` nodes
/// of the list, or the whole list when there is no maximum: whichever page
/// `k` it stops at (holding the first `(k + 1) * size` nodes, or all), what it
/// keeps is that.
pub proof fn lemma_run_returns_first<T>(max: Option<u32>, list: Seq<T>, size: nat, k: nat)
    requires
        finished(
            max,
            list.take(min_nat((k + 1) * size, list.len()) as int),
            page_has_next(list, k * size, size),
        ),
    ensures
        kept(max, list.take(min_nat((k + 1) * size, list.len()) as int)) == match max {
            Some(m) => list.take(min_nat(m as nat, list.len()) as int),
            None => list,
        },
{
    assert((k + 1) * size == k * size + size) by (nonlinear_arith);
    lemma_kept_at_stop(max, list, min_nat((k + 1) * size, list.len()), page_has_next(list, k * size, size));
}

} // verus!
