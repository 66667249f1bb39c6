use linear_mg::args::{OrderBy, PaginationArgs};
use linear_mg::cli::attachments::{
    AttachmentCreateInput, AttachmentPayload, AttachmentDeletePayload, AttachmentsAction, AttachmentsCommand, AttachmentsRequest,
};
use linear_mg::cli::comments::{
    comment_filter, comment_thread_fields, CommentChildren, CommentsAction, CommentsCommand, CommentsRequest,
    CommentPayload, DeletePayload, NullableCommentFilter, PendingCommentCreate, COMMENT_FIELDS, INLINE_REPLY_LIMIT,
};
use linear_mg::cli::documents::DocumentPayload;
use linear_mg::cli::cycles::{CycleByIdVariables, CyclesAction, CyclesCommand, CyclesRequest};
use linear_mg::cli::labels::{IssueLabelCreateInput, IssueLabelPayload, LabelsAction, LabelsCommand, LabelsRequest, PendingLabelCreate};
use linear_mg::cli::milestones::{
    milestone_filter, MilestoneFilter, ProjectMilestonePayload, MilestonesAction, MilestonesCommand, MilestonesRequest,
    PendingMilestoneCreate,
};
use linear_mg::cli::projects::{ProjectArchivePayload, ProjectPayload, ProjectsAction, ProjectsCommand, ProjectsRequest};
use linear_mg::cli::users::{UsersAction, UsersCommand, UsersRequest};
use linear_mg::cli::workflow_states::{WorkflowStatesAction, WorkflowStatesCommand};
use linear_mg::common::PageInfo;
use linear_mg::filters::{IdComparator, IdFilter, StringComparator};
use linear_mg::resolve::Lookup;

fn s(v: &str) -> Option<String> {
    Some(v.to_string())
}

fn ignore(v: &str) -> StringComparator {
    StringComparator { eq: None, neq: None, in_: None, contains: None, eq_ignore_case: s(v), starts_with: None }
}

fn pagination() -> PaginationArgs {
    PaginationArgs { limit: 10, after: s("c"), all: false, include_archived: true, order_by: OrderBy::UpdatedAt }
}

#[test]
fn order_by_names() {
    assert_eq!(OrderBy::CreatedAt.as_str(), "createdAt");
    assert_eq!(OrderBy::UpdatedAt.as_str(), "updatedAt");
}

#[test]
fn comment_thread_selection() {
    let f = comment_thread_fields();
    assert_eq!(INLINE_REPLY_LIMIT, 50);
    assert_eq!(
        f,
        format!(
            "{COMMENT_FIELDS} children(first: 50) {{ nodes {{ {COMMENT_FIELDS} }} pageInfo {{ hasNextPage hasPreviousPage endCursor startCursor }} }}"
        )
    );
    assert!(f.starts_with("\n    id body createdAt"));
}

#[test]
fn comment_filters() {
    let f = comment_filter(s("c1"), None);
    assert_eq!(f.parent, NullableCommentFilter { id: Some(IdComparator { eq: s("c1"), neq: None, in_: None }), null: None });
    assert_eq!(f.issue, None);
    let f = comment_filter(None, s("i1"));
    assert_eq!(f.parent, NullableCommentFilter { id: None, null: Some(true) });
    assert_eq!(f.issue, Some(IdFilter { id: Some(IdComparator { eq: s("i1"), neq: None, in_: None }) }));
}

#[test]
fn comment_children_flags() {
    let empty = CommentChildren { nodes: vec![], page_info: None };
    assert!(empty.is_empty());
    assert!(!empty.has_more());
    let more = CommentChildren {
        nodes: vec![],
        page_info: Some(PageInfo { has_next_page: true, has_previous_page: false, end_cursor: None, start_cursor: None }),
    };
    assert!(more.has_more());
    let done = CommentChildren {
        nodes: vec![],
        page_info: Some(PageInfo { has_next_page: false, has_previous_page: false, end_cursor: None, start_cursor: None }),
    };
    assert!(!done.has_more());
}

#[test]
fn comment_requests() {
    let c = CommentsCommand {
        action: CommentsAction::Create { issue: "ENG-1".into(), body: "hi".into(), parent: s("c0") },
    };
    match c.request() {
        CommentsRequest::Create(p) => {
            assert_eq!(p, PendingCommentCreate { issue: "ENG-1".into(), body: "hi".into(), parent: s("c0") });
            assert_eq!(p.issue_lookup(), Lookup::Issue("ENG-1".into()));
            let v = p.finish("i1".into());
            assert_eq!(v.input.issue_id, s("i1"));
            assert_eq!(v.input.body, "hi");
            assert_eq!(v.input.parent_id, s("c0"));
        }
        other => panic!("unexpected {other:?}"),
    }
    let l = CommentsCommand {
        action: CommentsAction::List { pagination: pagination(), issue: s("ENG-1"), parent: None },
    };
    assert_eq!(
        l.request(),
        CommentsRequest::List { pagination: pagination(), parent: None, issue: Some(Lookup::Issue("ENG-1".into())) }
    );
    let r = DeletePayload { success: false }.into_response();
    assert!(!r.success);
    assert!(r.data.is_none());
}

#[test]
fn milestone_filters() {
    assert_eq!(milestone_filter(None, None), None);
    assert_eq!(
        milestone_filter(Some("p1"), Some("Beta")),
        Some(MilestoneFilter {
            project: Some(IdFilter { id: Some(IdComparator { eq: s("p1"), neq: None, in_: None }) }),
            name: Some(ignore("Beta")),
        })
    );
    assert_eq!(milestone_filter(None, Some("Beta")), Some(MilestoneFilter { project: None, name: Some(ignore("Beta")) }));
}

#[test]
fn milestone_create_waits_for_project() {
    let c = MilestonesCommand {
        action: MilestonesAction::Create {
            name: "Beta".into(),
            project: "Apollo".into(),
            description: None,
            target_date: s("2024-06-01"),
        },
    };
    match c.request() {
        MilestonesRequest::Create(p) => {
            assert_eq!(p.project, "Apollo");
            assert_eq!(p.project_lookup(), Lookup::Project("Apollo".into()));
            let v = p.finish("p1".into());
            assert_eq!(v.input.project_id, "p1");
            assert_eq!(v.input.name, "Beta");
            assert_eq!(v.input.target_date, s("2024-06-01"));
        }
        other => panic!("unexpected {other:?}"),
    }
    let p = PendingMilestoneCreate { project: "x".into(), name: "n".into(), description: s("d"), target_date: None };
    assert_eq!(p.finish("p".into()).input.description, s("d"));
}

#[test]
fn label_create_with_team_and_parent() {
    let c = LabelsCommand {
        action: LabelsAction::Create {
            name: "Bug".into(),
            color: s("#f00"),
            description: None,
            team: s("ENG"),
            parent: s("Kind"),
        },
    };
    match c.request() {
        LabelsRequest::Create(p) => {
            assert_eq!(
                p,
                PendingLabelCreate { name: "Bug".into(), color: s("#f00"), description: None, team: s("ENG"), parent: s("Kind") }
            );
            assert_eq!(p.team_lookup(), Some(Lookup::Team("ENG".into())));
            assert_eq!(p.parent_lookup(&s("t1")), Some(Lookup::Label { value: "Kind".into(), team_id: s("t1") }));
            let v = p.finish(s("t1"), s("l0"));
            assert_eq!(
                v.input,
                IssueLabelCreateInput { name: "Bug".into(), color: s("#f00"), description: None, team_id: s("t1"), parent_id: s("l0") }
            );
        }
        other => panic!("unexpected {other:?}"),
    }
}

#[test]
fn attachment_create_passes_issue() {
    let c = AttachmentsCommand {
        action: AttachmentsAction::Create {
            issue: "ENG-1".into(),
            title: "Doc".into(),
            url: "https://x".into(),
            subtitle: None,
            icon_url: None,
        },
    };
    match c.request() {
        AttachmentsRequest::Create(v) => assert_eq!(
            v.input,
            AttachmentCreateInput { issue_id: "ENG-1".into(), title: "Doc".into(), url: "https://x".into(), subtitle: None, icon_url: None }
        ),
        other => panic!("unexpected {other:?}"),
    }
    assert!(AttachmentDeletePayload { success: true }.into_response().success);
}

#[test]
fn other_requests() {
    let p = ProjectsCommand { action: ProjectsAction::List { pagination: pagination() } };
    assert_eq!(p.request(), ProjectsRequest::List(pagination()));
    assert!(ProjectArchivePayload { success: true }.into_response().data.is_none());
    let u = UsersCommand { action: UsersAction::Me };
    assert_eq!(u.request(), UsersRequest::Viewer);
    let c = CyclesCommand { action: CyclesAction::Get { id: "cy".into() } };
    assert_eq!(c.request(), CyclesRequest::Get(CycleByIdVariables { id: "cy".into() }));
    let w = WorkflowStatesCommand { action: WorkflowStatesAction::List { pagination: pagination() } };
    assert_eq!(w.request(), pagination());
}

#[test]
fn milestone_list_within_looked_up_project() {
    let c = MilestonesCommand { action: MilestonesAction::List { pagination: pagination(), project: s("Apollo") } };
    assert_eq!(
        c.request(),
        MilestonesRequest::List { pagination: pagination(), project: Some(Lookup::Project("Apollo".into())) }
    );
    let c = LabelsCommand { action: LabelsAction::Get { id: "Bug".into() } };
    assert_eq!(c.request(), LabelsRequest::Get(Lookup::Label { value: "Bug".into(), team_id: None }));
}

#[test]
fn label_update_looks_up_in_no_team() {
    let c = LabelsCommand {
        action: LabelsAction::Update { id: "Bug".into(), name: s("Defect"), color: None, description: None, parent: s("Kind") },
    };
    match c.request() {
        LabelsRequest::Update(p) => {
            assert_eq!(p.label_lookup(), Lookup::Label { value: "Bug".into(), team_id: None });
            assert_eq!(p.parent_lookup(), Some(Lookup::Label { value: "Kind".into(), team_id: None }));
            let i = p.finish(s("l0"));
            assert_eq!(i.name, s("Defect"));
            assert_eq!(i.parent_id, s("l0"));
        }
        other => panic!("unexpected {other:?}"),
    }
}

#[test]
fn mutation_payloads_carry_the_record() {
    let r = AttachmentPayload { success: true, attachment: "a1" }.into_response();
    assert!(r.success);
    assert_eq!(r.data, Some("a1"));
    let r = DocumentPayload { success: false, document: "d1" }.into_response();
    assert!(!r.success);
    assert_eq!(r.data, Some("d1"));
    let r = IssueLabelPayload { success: true, issue_label: 3 }.into_response();
    assert_eq!(r.data, Some(3));
    let r = ProjectMilestonePayload { success: true, project_milestone: 4 }.into_response();
    assert_eq!(r.data, Some(4));
    let r = ProjectPayload { success: true, project: Some("p1") }.into_response();
    assert_eq!(r.data, Some("p1"));
    let r = ProjectPayload::<&str> { success: true, project: None }.into_response();
    assert_eq!(r.data, None);
    let r = CommentPayload { success: true, comment: Some("c1") }.into_response();
    assert_eq!(r.data, Some("c1"));
}
