use linear_mg::args::{OrderBy, PaginationArgs};
use linear_mg::cli::issues::{
    IssueByIdVariables, IssueCreateInput, IssueUpdateInput, IssuesAction, IssuesCommand, IssuesRequest,
    IssuePayload, IssueRelationPayload, PendingIssueCreate, PendingIssueList, PendingIssueUpdate,
    RelationDeletePayload, ArchivePayload,
};
use linear_mg::resolve::Lookup;
use linear_mg::error::CliError;
use linear_mg::filters::{IdComparator, IdFilter, StringComparator};
use linear_mg::issues::{
    apply_project_and_milestone, build_filter, milestone_scope, needs_current_project, team_context,
    NameFilter, ProjectMilestoneLink, TeamContext, TeamFilter,
};
use linear_mg::relations::IssueRelationCreateInput;
use linear_mg::resolve::ResolvedMilestone;

fn s(v: &str) -> Option<String> {
    Some(v.to_string())
}

fn ignore(v: &str) -> StringComparator {
    StringComparator { eq: None, neq: None, in_: None, contains: None, eq_ignore_case: s(v), starts_with: None }
}

fn by_id(v: &str) -> IdFilter {
    IdFilter { id: Some(IdComparator { eq: s(v), neq: None, in_: None }) }
}

fn pagination() -> PaginationArgs {
    PaginationArgs { limit: 50, after: None, all: false, include_archived: false, order_by: OrderBy::CreatedAt }
}

#[test]
fn filter_is_absent_without_options() {
    let f = build_filter::<f64>(None, None, None, None, None, None, None, None);
    assert!(f.is_none());
}

#[test]
fn filter_carries_each_option() {
    let f = build_filter(s("ENG"), s("u1"), s("Todo"), s("Bug"), s("p1"), s("m1"), s("c1"), Some(2.0f64)).unwrap();
    assert_eq!(f.team, Some(TeamFilter { key: Some(ignore("ENG")) }));
    assert_eq!(f.assignee, Some(by_id("u1")));
    assert_eq!(f.state, Some(NameFilter { name: Some(ignore("Todo")) }));
    assert_eq!(f.labels, Some(NameFilter { name: Some(ignore("Bug")) }));
    assert_eq!(f.project, Some(by_id("p1")));
    assert_eq!(f.project_milestone, Some(by_id("m1")));
    assert_eq!(f.cycle, Some(by_id("c1")));
    assert_eq!(f.priority.as_ref().unwrap().eq, Some(2.0));
    assert_eq!(f.priority.as_ref().unwrap().lt, None);
    let f = build_filter::<f64>(None, None, None, None, None, None, None, Some(0.0)).unwrap();
    assert_eq!(f.priority.unwrap().eq, Some(0.0));
    assert_eq!(f.team, None);
}

#[test]
fn milestone_scope_prefers_project() {
    assert_eq!(milestone_scope(&s("p1"), s("p2")), s("p1"));
    assert_eq!(milestone_scope(&None, s("p2")), s("p2"));
    assert_eq!(milestone_scope(&None, None), None);
}

#[test]
fn milestone_project_adopted_only_without_scope() {
    let m = ResolvedMilestone { id: "m1".into(), project_id: s("p9") };
    assert_eq!(
        apply_project_and_milestone(None, &None, Some(m.clone())),
        ProjectMilestoneLink { project_id: s("p9"), project_milestone_id: s("m1") }
    );
    assert_eq!(
        apply_project_and_milestone(s("p1"), &s("p1"), Some(m.clone())),
        ProjectMilestoneLink { project_id: s("p1"), project_milestone_id: s("m1") }
    );
    assert_eq!(
        apply_project_and_milestone(None, &s("p2"), Some(m)),
        ProjectMilestoneLink { project_id: None, project_milestone_id: s("m1") }
    );
    assert_eq!(
        apply_project_and_milestone(s("p1"), &s("p1"), None),
        ProjectMilestoneLink { project_id: s("p1"), project_milestone_id: None }
    );
}

#[test]
fn team_context_of_update() {
    assert_eq!(team_context(false, 0, 0, &s("t1"), "ENG-1"), TeamContext::Unknown);
    assert_eq!(team_context(true, 0, 0, &s("t1"), "ENG-1"), TeamContext::Known("t1".into()));
    assert_eq!(team_context(false, 1, 0, &None, "ENG-1"), TeamContext::ByKey("ENG".into()));
    assert_eq!(team_context(false, 0, 2, &None, "123e4567-e89b-12d3-a456-426614174000"), TeamContext::Unknown);
}

#[test]
fn current_project_needed_for_bare_milestone() {
    assert!(needs_current_project(&s("Beta"), &None));
    assert!(!needs_current_project(&s("Beta"), &s("p1")));
    assert!(!needs_current_project(&None, &None));
}

fn create() -> PendingIssueCreate {
    PendingIssueCreate {
        title: "Fix".into(),
        team: "ENG".into(),
        description: s("desc"),
        assignee: s("me"),
        priority: Some(2),
        state: s("Todo"),
        project: None,
        milestone: s("Beta"),
        cycle: s("c1"),
        labels: vec!["Bug".into()],
        due_date: s("2024-01-31"),
        estimate: Some(3),
        parent: None,
    }
}

#[test]
fn create_input_from_lookups() {
    let link = ProjectMilestoneLink { project_id: s("p1"), project_milestone_id: s("m1") };
    let v = create().finish("t1".into(), s("u1"), s("s1"), link, vec!["l1".into()]);
    assert_eq!(
        v.input,
        IssueCreateInput {
            team_id: "t1".into(),
            title: "Fix".into(),
            description: s("desc"),
            assignee_id: s("u1"),
            priority: Some(2),
            state_id: s("s1"),
            project_id: s("p1"),
            project_milestone_id: s("m1"),
            cycle_id: s("c1"),
            label_ids: Some(vec!["l1".into()]),
            due_date: s("2024-01-31"),
            estimate: Some(3),
            parent_id: None,
        }
    );
}

#[test]
fn create_without_labels_sends_none() {
    let link = ProjectMilestoneLink { project_id: None, project_milestone_id: None };
    let v = create().finish("t1".into(), None, None, link, vec![]);
    assert_eq!(v.input.label_ids, None);
}

fn update(no_milestone: bool) -> PendingIssueUpdate {
    PendingIssueUpdate {
        id: "ENG-1".into(),
        title: s("New"),
        description: None,
        assignee: None,
        priority: None,
        state: None,
        project: None,
        milestone: None,
        no_milestone,
        cycle: None,
        add_labels: vec![],
        remove_labels: vec![],
        due_date: None,
        estimate: Some(1),
        parent: s("ENG-0"),
        team: None,
    }
}

#[test]
fn update_input_sends_what_was_given() {
    let link = ProjectMilestoneLink { project_id: None, project_milestone_id: s("m1") };
    let v = update(false).finish(None, None, None, link, vec!["l1".into()], vec![]);
    assert_eq!(v.id, "ENG-1");
    assert_eq!(
        v.input,
        IssueUpdateInput {
            team_id: None,
            title: s("New"),
            description: None,
            assignee_id: None,
            priority: None,
            state_id: None,
            project_id: None,
            project_milestone_id: Some(s("m1")),
            cycle_id: None,
            added_label_ids: Some(vec!["l1".into()]),
            removed_label_ids: None,
            due_date: None,
            estimate: Some(1),
            parent_id: s("ENG-0"),
        }
    );
}

#[test]
fn no_milestone_unlinks() {
    let link = ProjectMilestoneLink { project_id: None, project_milestone_id: None };
    let v = update(true).finish(None, None, None, link, vec![], vec![]);
    assert_eq!(v.input.project_milestone_id, Some(None));
    let link = ProjectMilestoneLink { project_id: None, project_milestone_id: None };
    let v = update(false).finish(None, None, None, link, vec![], vec!["l2".into()]);
    assert_eq!(v.input.project_milestone_id, None);
    assert_eq!(v.input.removed_label_ids, Some(vec!["l2".into()]));
}

fn relate(blocks: Option<String>, blocked_by: Option<String>, similar_to: Option<String>) -> IssuesCommand<f64> {
    IssuesCommand {
        action: IssuesAction::Relate {
            issue: "ENG-1".into(),
            blocks,
            blocked_by,
            related_to: None,
            duplicate_of: None,
            similar_to,
        },
    }
}

#[test]
fn relate_blocks_and_blocked_by() {
    assert_eq!(
        relate(s("ENG-2"), None, None).request(),
        Ok(IssuesRequest::Relate(IssueRelationCreateInput {
            issue_id: "ENG-1".into(),
            related_issue_id: "ENG-2".into(),
            relation_type: "blocks".into(),
        }))
    );
    assert_eq!(
        relate(None, s("ENG-2"), None).request(),
        Ok(IssuesRequest::Relate(IssueRelationCreateInput {
            issue_id: "ENG-2".into(),
            related_issue_id: "ENG-1".into(),
            relation_type: "blocks".into(),
        }))
    );
    assert_eq!(
        relate(None, None, s("ENG-3")).request(),
        Ok(IssuesRequest::Relate(IssueRelationCreateInput {
            issue_id: "ENG-1".into(),
            related_issue_id: "ENG-3".into(),
            relation_type: "similar".into(),
        }))
    );
}

#[test]
fn relate_needs_exactly_one_direction() {
    assert_eq!(
        relate(None, None, None).request(),
        Err(CliError::InvalidInput(
            "exactly one of --blocks, --blocked-by, --related-to, --duplicate-of, --similar-to is required".into()
        ))
    );
    assert_eq!(
        relate(s("A"), s("B"), None).request(),
        Err(CliError::InvalidInput("only one relation direction may be specified".into()))
    );
}

#[test]
fn simple_requests() {
    let get: IssuesCommand<f64> = IssuesCommand { action: IssuesAction::Get { id: "ENG-1".into() } };
    assert_eq!(get.request(), Ok(IssuesRequest::Get(IssueByIdVariables { id: "ENG-1".into() })));
    let un: IssuesCommand<f64> = IssuesCommand { action: IssuesAction::Unrelate { id: "r1".into() } };
    assert_eq!(un.request(), Ok(IssuesRequest::Unrelate("r1".into())));
    let search: IssuesCommand<f64> =
        IssuesCommand { action: IssuesAction::Search { query: "crash".into(), pagination: pagination() } };
    match search.request() {
        Ok(IssuesRequest::Search(v)) => {
            assert_eq!(v.query, "crash");
            assert_eq!(v.pagination, pagination());
        }
        other => panic!("unexpected {other:?}"),
    }
    let r = ArchivePayload { success: true }.into_response();
    assert!(r.success);
    assert!(r.data.is_none());
}

#[test]
fn list_lookups_and_filter() {
    let p: PendingIssueList<f64> = PendingIssueList {
        pagination: pagination(),
        team: s("ENG"),
        assignee: s("me"),
        state: None,
        label: None,
        project: s("Apollo"),
        milestone: s("Beta"),
        cycle: None,
        priority: Some(1.0),
    };
    assert_eq!(p.assignee_lookup(), Some(Lookup::Assignee("me".into())));
    assert_eq!(p.project_lookup(), Some(Lookup::Project("Apollo".into())));
    assert_eq!(p.milestone_lookup(&s("p1")), Some(Lookup::Milestone { value: "Beta".into(), project_id: s("p1") }));
    let m = ResolvedMilestone { id: "m1".into(), project_id: s("p1") };
    let (args, f) = p.finish(s("u1"), s("p1"), Some(m));
    assert_eq!(args, pagination());
    let f = f.unwrap();
    assert_eq!(f.team, Some(TeamFilter { key: Some(ignore("ENG")) }));
    assert_eq!(f.assignee, Some(by_id("u1")));
    assert_eq!(f.project, Some(by_id("p1")));
    assert_eq!(f.project_milestone, Some(by_id("m1")));
    assert_eq!(f.priority.unwrap().eq, Some(1.0));
}

#[test]
fn list_without_filters() {
    let p: PendingIssueList<f64> = PendingIssueList {
        pagination: pagination(),
        team: None,
        assignee: None,
        state: None,
        label: None,
        project: None,
        milestone: None,
        cycle: None,
        priority: None,
    };
    assert_eq!(p.milestone_lookup(&None), None);
    let (_, f) = p.finish(None, None, None);
    assert!(f.is_none());
}

#[test]
fn mutation_payloads_print_success_and_record() {
    let r = IssuePayload { success: true, issue: Some(7u32) }.into_response();
    assert!(r.success);
    assert_eq!(r.data, Some(7));
    let r = IssuePayload::<u32> { success: false, issue: None }.into_response();
    assert!(!r.success);
    assert_eq!(r.data, None);
    let r = IssueRelationPayload { success: true, issue_relation: Some("rel") }.into_response();
    assert_eq!(r.data, Some("rel"));
    let r = RelationDeletePayload { success: true }.into_response();
    assert!(r.success);
    assert!(r.data.is_none());
}
