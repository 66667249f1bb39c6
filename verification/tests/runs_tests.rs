use linear_mg::cli::issue_runs::{IssueCreateRun, IssueCreateStep, IssueUpdateRun, IssueUpdateStep};
use linear_mg::cli::issues::{IssueCreateVariables, IssueUpdateVariables, PendingIssueCreate, PendingIssueUpdate};
use linear_mg::error::CliError;
use linear_mg::resolve::{Found, Lookup, ResolvedMilestone};

fn s(v: &str) -> Option<String> {
    Some(v.to_string())
}

fn create(labels: Vec<&str>) -> PendingIssueCreate {
    PendingIssueCreate {
        title: "Fix".into(),
        team: "ENG".into(),
        description: None,
        assignee: s("me"),
        priority: None,
        state: s("Todo"),
        project: s("Apollo"),
        milestone: s("Beta"),
        cycle: None,
        labels: labels.into_iter().map(String::from).collect(),
        due_date: None,
        estimate: None,
        parent: None,
    }
}

/// Answers each lookup from a fixed table and records what was asked.
fn answer_for(l: &Lookup) -> Result<Found, CliError> {
    match l {
        Lookup::Team(v) if v == "ENG" => Ok(Found::Id("t1".into())),
        Lookup::Team(v) => Err(CliError::NotFound(format!("team '{v}'"))),
        Lookup::Assignee(_) => Ok(Found::Id("u1".into())),
        Lookup::State { value, .. } if value == "Gone" => Err(CliError::NotFound("workflow state 'Gone'".into())),
        Lookup::State { .. } => Ok(Found::Id("s1".into())),
        Lookup::IssueProject(_) => Ok(Found::IssueProject(s("p7"))),
        Lookup::Project(_) => Ok(Found::Id("p1".into())),
        Lookup::Milestone { project_id, .. } => {
            Ok(Found::Milestone(ResolvedMilestone { id: "m1".into(), project_id: project_id.clone().or(s("p9")) }))
        }
        Lookup::Label { value, .. } => Ok(Found::Id(format!("l-{value}"))),
        Lookup::Issue(v) => Ok(Found::Id(format!("i-{v}"))),
    }
}

fn run_create(p: PendingIssueCreate) -> (Vec<Lookup>, Result<IssueCreateVariables, CliError>) {
    let mut asked = vec![];
    let mut step = IssueCreateRun::start(p);
    loop {
        match step {
            IssueCreateStep::Ask(run, l) => {
                asked.push(l.clone());
                step = run.answer(answer_for(&l));
            }
            IssueCreateStep::Send(v) => return (asked, Ok(v)),
            IssueCreateStep::Fail(e) => return (asked, Err(e)),
        }
    }
}

fn run_update(p: PendingIssueUpdate) -> (Vec<Lookup>, Result<IssueUpdateVariables, CliError>) {
    let mut asked = vec![];
    let mut step = IssueUpdateRun::start(p);
    loop {
        match step {
            IssueUpdateStep::Ask(run, l) => {
                asked.push(l.clone());
                step = run.answer(answer_for(&l));
            }
            IssueUpdateStep::Send(v) => return (asked, Ok(v)),
            IssueUpdateStep::Fail(e) => return (asked, Err(e)),
        }
    }
}

#[test]
fn create_looks_up_in_order_and_scopes() {
    let (asked, v) = run_create(create(vec!["Bug", "Feature"]));
    assert_eq!(
        asked,
        vec![
            Lookup::Team("ENG".into()),
            Lookup::Assignee("me".into()),
            Lookup::State { value: "Todo".into(), team_id: s("t1") },
            Lookup::Project("Apollo".into()),
            Lookup::Milestone { value: "Beta".into(), project_id: s("p1") },
            Lookup::Label { value: "Bug".into(), team_id: s("t1") },
            Lookup::Label { value: "Feature".into(), team_id: s("t1") },
        ]
    );
    let i = v.unwrap().input;
    assert_eq!(i.team_id, "t1");
    assert_eq!(i.assignee_id, s("u1"));
    assert_eq!(i.state_id, s("s1"));
    assert_eq!(i.project_id, s("p1"));
    assert_eq!(i.project_milestone_id, s("m1"));
    assert_eq!(i.label_ids, Some(vec!["l-Bug".to_string(), "l-Feature".to_string()]));
}

#[test]
fn create_takes_milestone_project_without_project() {
    let mut p = create(vec![]);
    p.project = None;
    p.assignee = None;
    p.state = None;
    let (asked, v) = run_create(p);
    assert_eq!(
        asked,
        vec![Lookup::Team("ENG".into()), Lookup::Milestone { value: "Beta".into(), project_id: None }]
    );
    let i = v.unwrap().input;
    assert_eq!(i.project_id, s("p9"));
    assert_eq!(i.label_ids, None);
}

#[test]
fn create_stops_at_first_failure() {
    let mut p = create(vec!["Bug"]);
    p.state = s("Gone");
    let (asked, v) = run_create(p);
    assert_eq!(asked.len(), 3);
    assert_eq!(v.unwrap_err(), CliError::NotFound("workflow state 'Gone'".into()));
    let mut p = create(vec![]);
    p.team = "OPS".into();
    let (asked, v) = run_create(p);
    assert_eq!(asked, vec![Lookup::Team("OPS".into())]);
    assert_eq!(v.unwrap_err(), CliError::NotFound("team 'OPS'".into()));
}

#[test]
fn answer_of_wrong_kind_is_ignored() {
    let step = IssueCreateRun::start(create(vec![]));
    let run = match step {
        IssueCreateStep::Ask(run, _) => run,
        other => panic!("unexpected {other:?}"),
    };
    match run.answer(Ok(Found::IssueProject(None))) {
        IssueCreateStep::Ask(run, l) => {
            assert_eq!(run.phase, 0);
            assert_eq!(l, Lookup::Team("ENG".into()));
        }
        other => panic!("unexpected {other:?}"),
    }
}

fn update(id: &str) -> PendingIssueUpdate {
    PendingIssueUpdate {
        id: id.into(),
        title: None,
        description: None,
        assignee: None,
        priority: None,
        state: None,
        project: None,
        milestone: None,
        no_milestone: false,
        cycle: None,
        add_labels: vec![],
        remove_labels: vec![],
        due_date: None,
        estimate: None,
        parent: None,
        team: None,
    }
}

#[test]
fn update_without_lookups_sends_at_once() {
    let mut p = update("ENG-1");
    p.title = s("New");
    let (asked, v) = run_update(p);
    assert!(asked.is_empty());
    let v = v.unwrap();
    assert_eq!(v.id, "ENG-1");
    assert_eq!(v.input.title, s("New"));
    assert_eq!(v.input.project_milestone_id, None);
}

#[test]
fn update_team_context_from_identifier() {
    let mut p = update("ENG-1");
    p.state = s("Done");
    p.add_labels = vec!["Bug".into()];
    let (asked, v) = run_update(p);
    assert_eq!(
        asked,
        vec![
            Lookup::Team("ENG".into()),
            Lookup::State { value: "Done".into(), team_id: s("t1") },
            Lookup::Label { value: "Bug".into(), team_id: s("t1") },
        ]
    );
    let i = v.unwrap().input;
    assert_eq!(i.team_id, None);
    assert_eq!(i.added_label_ids, Some(vec!["l-Bug".to_string()]));
}

#[test]
fn update_unknown_key_leaves_context_empty() {
    let mut p = update("OPS-1");
    p.remove_labels = vec!["Bug".into()];
    let (asked, v) = run_update(p);
    assert_eq!(
        asked,
        vec![Lookup::Team("OPS".into()), Lookup::Label { value: "Bug".into(), team_id: None }]
    );
    assert_eq!(v.unwrap().input.removed_label_ids, Some(vec!["l-Bug".to_string()]));
}

#[test]
fn update_given_team_is_the_context() {
    let mut p = update("123e4567-e89b-12d3-a456-426614174000");
    p.team = s("ENG");
    p.state = s("Done");
    let (asked, v) = run_update(p);
    assert_eq!(
        asked,
        vec![Lookup::Team("ENG".into()), Lookup::State { value: "Done".into(), team_id: s("t1") }]
    );
    assert_eq!(v.unwrap().input.team_id, s("t1"));
}

#[test]
fn update_milestone_within_current_project() {
    let mut p = update("ENG-1");
    p.milestone = s("Beta");
    let (asked, v) = run_update(p);
    assert_eq!(
        asked,
        vec![
            Lookup::IssueProject("ENG-1".into()),
            Lookup::Milestone { value: "Beta".into(), project_id: s("p7") },
        ]
    );
    let i = v.unwrap().input;
    assert_eq!(i.project_milestone_id, Some(s("m1")));
    assert_eq!(i.project_id, None);
}

#[test]
fn update_no_milestone_unlinks() {
    let mut p = update("ENG-1");
    p.no_milestone = true;
    let (asked, v) = run_update(p);
    assert!(asked.is_empty());
    assert_eq!(v.unwrap().input.project_milestone_id, Some(None));
}

#[test]
fn nothing_is_sent_before_the_team_is_found() {
    let step = IssueCreateRun::start(create(vec![]));
    let run = match step {
        IssueCreateStep::Ask(run, _) => run,
        other => panic!("unexpected {other:?}"),
    };
    let mut run = run;
    run.phase = 3;
    match run.answer(Ok(Found::Id("p1".into()))) {
        IssueCreateStep::Ask(run, l) => {
            assert_eq!(run.phase, 0);
            assert_eq!(run.project_id, None);
            assert_eq!(l, Lookup::Team("ENG".into()));
        }
        other => panic!("unexpected {other:?}"),
    }
}
