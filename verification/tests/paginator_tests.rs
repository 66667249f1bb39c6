use linear_mg::args::{OrderBy, PaginationArgs};
use linear_mg::common::{Connection, PageInfo, PaginationOrderBy, Paginatable};
use linear_mg::paginator::{PageRequest, PageStep, PaginationParams, Paginator};

fn page(nodes: Vec<u32>, has_next: bool, end: Option<&str>) -> Connection<u32> {
    Connection {
        nodes,
        page_info: PageInfo {
            has_next_page: has_next,
            has_previous_page: false,
            end_cursor: end.map(String::from),
            start_cursor: None,
        },
    }
}

fn args(limit: u32, all: bool) -> PaginationArgs {
    PaginationArgs { limit, after: None, all, include_archived: false, order_by: OrderBy::CreatedAt }
}

/// Runs the paginator against a server holding `list`, serving pages after
/// the cursor (the index of the last node sent), and counts the requests.
fn run(params: &PaginationParams, list: &[u32]) -> (Vec<u32>, bool, usize) {
    let (mut p, mut req) = Paginator::<u32>::start(params);
    let mut requests = 0;
    loop {
        requests += 1;
        let offset: usize = req.cursor.as_deref().map(|c| c.parse().unwrap()).unwrap_or(0);
        let end = (offset + req.page_size as usize).min(list.len());
        let nodes = list[offset.min(list.len())..end].to_vec();
        let conn = page(nodes, end < list.len(), Some(&end.to_string()));
        match p.receive(conn) {
            PageStep::Next(np, nreq) => {
                p = np;
                req = nreq;
            }
            PageStep::Done(resp) => return (resp.nodes, resp.page_info.has_next_page, requests),
        }
    }
}

#[test]
fn default_params() {
    let d = PaginationParams::default();
    assert_eq!(d, PaginationParams { limit: Some(50), after: None, all: false, page_size: 50 });
}

#[test]
fn params_from_args_clamp_page_size() {
    assert_eq!(args(50, false).to_paginator_params().page_size, 50);
    assert_eq!(args(0, false).to_paginator_params().page_size, 1);
    assert_eq!(args(1000, false).to_paginator_params().page_size, 250);
    let p = args(1000, true).to_paginator_params();
    assert_eq!(p.limit, Some(1000));
    assert!(p.all);
}

#[test]
fn page_variables_follow_request() {
    let mut a = args(10, false);
    a.include_archived = true;
    a.order_by = OrderBy::UpdatedAt;
    let v = a.page_variables(&PageRequest { page_size: 10, cursor: Some("c1".into()) });
    assert_eq!(v.first, Some(10));
    assert_eq!(v.after, Some("c1".to_string()));
    assert_eq!(v.include_archived, Some(true));
    assert_eq!(v.order_by, Some(PaginationOrderBy::UpdatedAt));
}

#[test]
fn start_uses_smaller_of_limit_and_page_size() {
    let params = PaginationParams { limit: Some(5), after: Some("x".into()), all: false, page_size: 50 };
    let (p, req) = Paginator::<u32>::start(&params);
    assert_eq!(p.max, Some(5));
    assert_eq!(req, PageRequest { page_size: 5, cursor: Some("x".into()) });
    let params = PaginationParams { limit: Some(5), after: None, all: true, page_size: 50 };
    let (p, req) = Paginator::<u32>::start(&params);
    assert_eq!(p.max, None);
    assert_eq!(req.page_size, 50);
    let params = PaginationParams { limit: None, after: None, all: false, page_size: 250 };
    let (p, _) = Paginator::<u32>::start(&params);
    assert_eq!(p.max, Some(50));
}

#[test]
fn receive_continues_from_end_cursor() {
    let params = PaginationParams { limit: Some(10), after: None, all: false, page_size: 3 };
    let (p, _) = Paginator::<u32>::start(&params);
    match p.receive(page(vec![1, 2, 3], true, Some("c3"))) {
        PageStep::Next(p, req) => {
            assert_eq!(p.nodes, vec![1, 2, 3]);
            assert_eq!(req, PageRequest { page_size: 3, cursor: Some("c3".into()) });
        }
        PageStep::Done(_) => panic!("should continue"),
    }
}

#[test]
fn receive_cuts_at_maximum() {
    let params = PaginationParams { limit: Some(4), after: None, all: false, page_size: 3 };
    let (p, _) = Paginator::<u32>::start(&params);
    let p = match p.receive(page(vec![1, 2, 3], true, Some("a"))) {
        PageStep::Next(p, _) => p,
        PageStep::Done(_) => panic!("should continue"),
    };
    match p.receive(page(vec![4, 5, 6], true, Some("b"))) {
        PageStep::Done(resp) => {
            assert_eq!(resp.nodes, vec![1, 2, 3, 4]);
            assert!(resp.page_info.has_next_page);
            assert_eq!(resp.page_info.end_cursor, Some("b".to_string()));
        }
        PageStep::Next(..) => panic!("should stop"),
    }
}

#[test]
fn receive_stops_on_last_page() {
    let params = PaginationParams { limit: Some(10), after: None, all: false, page_size: 10 };
    let (p, _) = Paginator::<u32>::start(&params);
    match p.receive(page(vec![1, 2], false, None)) {
        PageStep::Done(resp) => {
            assert_eq!(resp.nodes, vec![1, 2]);
            assert!(!resp.page_info.has_next_page);
            assert_eq!(resp.page_info.end_cursor, None);
        }
        PageStep::Next(..) => panic!("should stop"),
    }
}

#[test]
fn run_returns_first_limit_nodes() {
    let list: Vec<u32> = (0..23).collect();
    for (limit, page_size) in [(5u32, 2u32), (10, 3), (23, 50), (50, 4), (1, 1)] {
        let params = PaginationParams { limit: Some(limit), after: None, all: false, page_size };
        let (nodes, _, _) = run(&params, &list);
        let want: Vec<u32> = list.iter().copied().take(limit as usize).collect();
        assert_eq!(nodes, want, "limit {limit} page size {page_size}");
    }
}

#[test]
fn run_with_all_returns_everything() {
    let list: Vec<u32> = (0..23).collect();
    let params = PaginationParams { limit: Some(5), after: None, all: true, page_size: 4 };
    let (nodes, has_next, requests) = run(&params, &list);
    assert_eq!(nodes, list);
    assert!(!has_next);
    assert_eq!(requests, 6);
}

#[test]
fn run_with_zero_limit_returns_nothing() {
    let list: Vec<u32> = (0..3).collect();
    let params = PaginationParams { limit: Some(0), after: None, all: false, page_size: 5 };
    let (nodes, _, requests) = run(&params, &list);
    assert!(nodes.is_empty());
    assert_eq!(requests, 1);
}

#[test]
fn connection_is_paginatable() {
    let c = page(vec![7, 8], true, Some("z"));
    assert!(c.page_info().has_next_page);
    assert_eq!(c.into_nodes(), vec![7, 8]);
}
