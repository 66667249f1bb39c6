use linear_mg::entities::{
    IssueLabel, MilestoneSummary, ProjectSlim, Team, TeamSlim, User, WorkflowState,
};
use linear_mg::error::CliError;
use linear_mg::resolve::{
    assignee_lookup, known_issue_id, resolve_assignee, resolve_label, resolve_milestone,
    resolve_project, resolve_state, resolve_team, AssigneeLookup, ResolvedMilestone,
};

const UUID: &str = "123e4567-e89b-12d3-a456-426614174000";

fn team(id: &str, key: &str, name: &str) -> Team {
    Team {
        id: id.into(),
        name: name.into(),
        key: key.into(),
        description: None,
        color: None,
        icon: None,
        cycles_enabled: false,
        created_at: "2024-01-01".into(),
        updated_at: "2024-01-01".into(),
        archived_at: None,
    }
}

fn user(id: &str, name: &str, display: &str, email: &str) -> User {
    User {
        id: id.into(),
        name: name.into(),
        display_name: display.into(),
        email: email.into(),
        active: true,
        admin: false,
        guest: false,
        is_me: false,
        avatar_url: None,
        description: None,
        created_at: "2024-01-01".into(),
        updated_at: "2024-01-01".into(),
        archived_at: None,
        last_seen: None,
    }
}

fn project(id: &str, name: &str, slug: &str) -> ProjectSlim {
    ProjectSlim { id: id.into(), name: name.into(), slug_id: slug.into() }
}

fn milestone(id: &str, name: &str, due: Option<&str>, p: ProjectSlim) -> MilestoneSummary {
    MilestoneSummary { id: id.into(), name: name.into(), target_date: due.map(String::from), project: p }
}

fn slim(id: &str, key: &str) -> TeamSlim {
    TeamSlim { id: id.into(), name: key.into(), key: key.into() }
}

fn label(id: &str, name: &str, team: Option<TeamSlim>) -> IssueLabel {
    IssueLabel {
        id: id.into(),
        name: name.into(),
        color: "#fff".into(),
        description: None,
        is_group: false,
        created_at: "2024-01-01".into(),
        updated_at: "2024-01-01".into(),
        archived_at: None,
        team,
        parent: None,
    }
}

fn state(id: &str, name: &str, t: TeamSlim) -> WorkflowState {
    WorkflowState { id: id.into(), name: name.into(), team: t }
}

#[test]
fn issue_uuid_needs_no_lookup() {
    assert_eq!(known_issue_id(UUID), Some(UUID.to_string()));
    assert_eq!(known_issue_id("ENG-123"), None);
}

#[test]
fn team_by_key_name_or_uuid() {
    let teams = vec![team("t1", "ENG", "Engineering"), team("t2", "OPS", "Operations")];
    assert_eq!(resolve_team("eng", &teams), Ok("t1".to_string()));
    assert_eq!(resolve_team("operations", &teams), Ok("t2".to_string()));
    assert_eq!(resolve_team(UUID, &teams), Ok(UUID.to_string()));
    assert_eq!(resolve_team("design", &teams), Err(CliError::NotFound("team 'design'".into())));
}

#[test]
fn assignee_first_step() {
    assert_eq!(assignee_lookup(UUID), AssigneeLookup::Id(UUID.to_string()));
    assert_eq!(assignee_lookup("ME"), AssigneeLookup::Viewer);
    assert_eq!(assignee_lookup("alice"), AssigneeLookup::Directory);
}

#[test]
fn assignee_by_email_or_name() {
    let users = vec![
        user("u1", "Alice Smith", "alice", "alice@example.com"),
        user("u2", "Bob Jones", "bob", "bob@example.com"),
    ];
    assert_eq!(resolve_assignee("BOB@example.com", &users), Ok("u2".to_string()));
    assert_eq!(resolve_assignee("alice smith", &users), Ok("u1".to_string()));
    assert_eq!(resolve_assignee("Bob", &users), Ok("u2".to_string()));
    assert_eq!(
        resolve_assignee("carol@example.com", &users),
        Err(CliError::NotFound("user with email 'carol@example.com'".into()))
    );
    assert_eq!(resolve_assignee("carol", &users), Err(CliError::NotFound("user 'carol'".into())));
}

#[test]
fn project_by_slug_then_unique_name() {
    let projects = vec![
        project("p1", "Apollo", "apollo-1"),
        project("p2", "Gemini", "gemini-2"),
        project("p3", "Gemini", "gemini-3"),
    ];
    assert_eq!(resolve_project("APOLLO-1", &projects), Ok("p1".to_string()));
    assert_eq!(resolve_project("apollo", &projects), Ok("p1".to_string()));
    assert_eq!(resolve_project("gemini-3", &projects), Ok("p3".to_string()));
    assert_eq!(resolve_project(UUID, &projects), Ok(UUID.to_string()));
    assert_eq!(
        resolve_project("gemini", &projects),
        Err(CliError::InvalidInput(
            "multiple projects named 'gemini' found (slugs: gemini-2, gemini-3); pass a slug or project ID to disambiguate"
                .into()
        ))
    );
    assert_eq!(resolve_project("mercury", &projects), Err(CliError::NotFound("project 'mercury'".into())));
}

#[test]
fn milestone_by_name_carries_its_project() {
    let ms = vec![milestone("m1", "Beta", Some("2024-06-01"), project("p1", "Apollo", "apollo-1"))];
    assert_eq!(
        resolve_milestone("beta", None, &ms),
        Ok(ResolvedMilestone { id: "m1".into(), project_id: Some("p1".into()) })
    );
    assert_eq!(
        resolve_milestone(UUID, None, &ms),
        Ok(ResolvedMilestone { id: UUID.into(), project_id: None })
    );
    assert_eq!(resolve_milestone("gamma", None, &ms), Err(CliError::NotFound("milestone 'gamma'".into())));
}

#[test]
fn milestone_ambiguities() {
    let ms = vec![
        milestone("m1", "Beta", Some("2024-06-01"), project("p1", "Apollo", "apollo-1")),
        milestone("m2", "beta", None, project("p2", "Gemini", "gemini-2")),
    ];
    assert_eq!(
        resolve_milestone("Beta", None, &ms),
        Err(CliError::InvalidInput(
            "multiple milestones named 'Beta' found in projects: Apollo, Gemini; pass --project or a milestone ID to disambiguate"
                .into()
        ))
    );
    let same = vec![
        milestone("m1", "Beta", Some("2024-06-01"), project("p1", "Apollo", "apollo-1")),
        milestone("m3", "beta", None, project("p1", "Apollo", "apollo-1")),
    ];
    assert_eq!(
        resolve_milestone("Beta", Some("p1"), &same),
        Err(CliError::InvalidInput(
            "multiple milestones named 'Beta' in this project: m1 (due 2024-06-01), m3 (due -); pass a milestone ID"
                .into()
        ))
    );
}

#[test]
fn milestone_lookup_stays_within_project() {
    let ms = vec![
        milestone("m1", "Beta", Some("2024-06-01"), project("p1", "Apollo", "apollo-1")),
        milestone("m2", "beta", None, project("p2", "Gemini", "gemini-2")),
    ];
    assert_eq!(
        resolve_milestone("Beta", Some("p2"), &ms),
        Ok(ResolvedMilestone { id: "m2".into(), project_id: Some("p2".into()) })
    );
    let other = vec![milestone("m2", "Beta", None, project("p2", "Gemini", "gemini-2"))];
    assert_eq!(
        resolve_milestone("Beta", Some("p1"), &other),
        Err(CliError::NotFound("milestone 'Beta'".into()))
    );
}

#[test]
fn label_unique_or_scoped() {
    let eng = slim("t1", "ENG");
    let ops = slim("t2", "OPS");
    let labels = vec![
        label("l1", "Bug", Some(ops.clone())),
        label("l2", "bug", Some(eng.clone())),
        label("l3", "BUG", None),
        label("l4", "Feature", None),
    ];
    assert_eq!(resolve_label("feature", None, &labels), Ok("l4".to_string()));
    assert_eq!(resolve_label("bug", Some("t1"), &labels), Ok("l2".to_string()));
    assert_eq!(resolve_label("bug", Some("t9"), &labels), Ok("l3".to_string()));
    assert_eq!(resolve_label(UUID, None, &labels), Ok(UUID.to_string()));
    assert_eq!(
        resolve_label("bug", None, &labels),
        Err(CliError::InvalidInput(
            "multiple labels named 'bug' found (OPS, ENG, workspace); pass a label ID to disambiguate".into()
        ))
    );
    assert_eq!(resolve_label("chore", None, &labels), Err(CliError::NotFound("label 'chore'".into())));
}

#[test]
fn label_ambiguous_without_workspace_label() {
    let labels = vec![
        label("l1", "Bug", Some(slim("t1", "ENG"))),
        label("l2", "Bug", Some(slim("t2", "OPS"))),
    ];
    assert_eq!(
        resolve_label("bug", Some("t3"), &labels),
        Err(CliError::InvalidInput(
            "multiple labels named 'bug' found (ENG, OPS); pass a label ID to disambiguate".into()
        ))
    );
}

#[test]
fn state_within_team_or_unique() {
    let states = vec![
        state("s1", "Todo", slim("t1", "ENG")),
        state("s2", "todo", slim("t2", "OPS")),
        state("s3", "In Progress", slim("t1", "ENG")),
    ];
    assert_eq!(resolve_state("in progress", None, &states), Ok("s3".to_string()));
    assert_eq!(resolve_state("todo", Some("t2"), &states), Ok("s2".to_string()));
    assert_eq!(resolve_state(UUID, None, &states), Ok(UUID.to_string()));
    assert_eq!(
        resolve_state("Todo", None, &states),
        Err(CliError::InvalidInput(
            "multiple workflow states named 'Todo' found in teams: ENG, OPS; specify --team to disambiguate".into()
        ))
    );
    assert_eq!(
        resolve_state("Done", Some("t1"), &states),
        Err(CliError::NotFound("workflow state 'Done'".into()))
    );
}

#[test]
fn lookups_ignore_ascii_case() {
    let teams = vec![team("t1", "ENG", "Engineering")];
    assert_eq!(resolve_team("Eng", &teams), resolve_team("eNG", &teams));
    let states = vec![state("s1", "In Progress", slim("t1", "ENG"))];
    assert_eq!(resolve_state("in progress", None, &states), resolve_state("IN PROGRESS", None, &states));
    let projects = vec![project("p1", "Apollo", "apollo-1")];
    assert_eq!(resolve_project("APOLLO-1", &projects), resolve_project("apollo-1", &projects));
    let upper = "123E4567-E89B-12D3-A456-426614174000";
    assert_eq!(resolve_team(upper, &teams), Ok(upper.to_string()));
}
