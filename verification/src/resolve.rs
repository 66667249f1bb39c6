//! Turning what a user types (an ID, a key, a name, an email, a slug) into the
//! ID the API expects. A UUID is taken as it stands; anything else is looked
//! up in the records the caller fetched, ASCII letters compared without
//! regard to case.

use vstd::prelude::*;
use crate::args::ListVariables;
use crate::common::PaginationOrderBy;
use crate::entities::{IssueLabel, MilestoneSummary, ProjectSlim, Team, User, WorkflowState};
use crate::config::opt_view;
use crate::error::CliError;
use crate::text::{
    contains_char, eq_ignore_case, folded, is_dash_position, is_hex_digit, join, join_strings, spec_is_uuid, str_eq, str_eq_ignore_case, string_views,
};
pub use crate::text::{extract_team_key, is_uuid};

verus! {

/// `i` is the first position of `s` whose item satisfies `p`.
pub open spec fn first_match<T>(s: Seq<T>, p: spec_fn(T) -> bool, i: int) -> bool {
    &&& 0 <= i < s.len()
    &&& p(s[i])
    &&& forall|j: int| 0 <= j < i ==> !p(#[trigger] s[j])
}

/// No item of `s` satisfies `p`.
pub open spec fn no_match<T>(s: Seq<T>, p: spec_fn(T) -> bool) -> bool {
    forall|j: int| 0 <= j < s.len() ==> !p(#[trigger] s[j])
}

/// The items of `s` that satisfy `p`, in order.
pub open spec fn matching<T>(s: Seq<T>, p: spec_fn(T) -> bool) -> Seq<T>
    decreases s.len(),
{
    if s.len() == 0 {
        Seq::empty()
    } else {
        let m = matching(s.drop_last(), p);
        if p(s.last()) {
            m.push(s.last())
        } else {
            m
        }
    }
}

/// `"{prefix}'{value}'"`: how a lookup names what it did not find.
pub open spec fn quoted(prefix: Seq<char>, value: Seq<char>) -> Seq<char> {
    prefix + "'"@ + value + "'"@
}

fn quote(prefix: &str, value: &str) -> (r: String)
    ensures
        r@ == quoted(prefix@, value@),
{
    let mut s = prefix.to_owned();
    s.append("'");
    s.append(value);
    s.append("'");
    s
}

pub open spec fn not_found(r: Result<String, CliError>, prefix: Seq<char>, value: Seq<char>) -> bool {
    r matches Err(CliError::NotFound(m)) && m@ == quoted(prefix, value)
}

pub open spec fn found_at<T>(r: Result<String, CliError>, s: Seq<T>, p: spec_fn(T) -> bool, id: spec_fn(T) -> Seq<char>) -> bool {
    exists|i: int| #[trigger] first_match(s, p, i) && (r matches Ok(v) && v@ == id(s[i]))
}

// ---- what a lookup searches ----

/// The records a lookup by name searches: one page of the 250 most recently
/// updated, archived ones left out.
pub fn lookup_page() -> (r: ListVariables)
    ensures
        r.first == Some(250u32),
        r.after is None,
        r.include_archived == Some(false),
        r.order_by == Some(PaginationOrderBy::UpdatedAt),
{
    ListVariables {
        first: Some(250),
        after: None,
        include_archived: Some(false),
        order_by: Some(PaginationOrderBy::UpdatedAt),
    }
}

// ---- issues ----

/// The first step of resolving an issue given by ID or identifier: a UUID is
/// its own ID; anything else (such as `ENG-123`) must be fetched, and `None`
/// says so.
pub fn known_issue_id(value: &str) -> (r: Option<String>)
    ensures
        spec_is_uuid(value@) ==> (r matches Some(v) && v@ == value@),
        !spec_is_uuid(value@) ==> r is None,
{
    if is_uuid(value) {
        Some(value.to_owned())
    } else {
        None
    }
}

// ---- lookups ----

/// A lookup a run needs made.
#[derive(Debug, Clone, PartialEq, Eq)]
pub enum Lookup {
    /// An issue by ID or identifier.
    Issue(String),
    /// A team by key, name or ID.
    Team(String),
    /// A user by ID, name, email or `me`.
    Assignee(String),
    /// A workflow state by name or ID, within a team when one is known.
    State { value: String, team_id: Option<String> },
    /// The project the issue (ID or identifier) currently belongs to.
    IssueProject(String),
    /// A project by ID, name or slug.
    Project(String),
    /// A milestone by name or ID, within a project when one is known.
    Milestone { value: String, project_id: Option<String> },
    /// A label by name or ID, with the team to prefer when one is known.
    Label { value: String, team_id: Option<String> },
}

/// What a lookup found.
#[derive(Debug, Clone, PartialEq, Eq)]
pub enum Found {
    /// The ID of a team, user, state, project or label.
    Id(String),
    /// The issue's current project, if it has one.
    IssueProject(Option<String>),
    /// A milestone, with its project when it was looked up by name.
    Milestone(ResolvedMilestone),
}

pub open spec fn found_id(f: Found) -> Option<String> {
    match f {
        Found::Id(id) => Some(id),
        _ => None,
    }
}

pub open spec fn found_milestone(f: Found) -> Option<ResolvedMilestone> {
    match f {
        Found::Milestone(m) => Some(m),
        _ => None,
    }
}

// ---- teams ----

pub open spec fn team_matches(value: Seq<char>) -> spec_fn(Team) -> bool {
    |t: Team| eq_ignore_case(t.key@, value) || eq_ignore_case(t.name@, value)
}

pub open spec fn team_id() -> spec_fn(Team) -> Seq<char> {
    |t: Team| t.id@
}

/// A team given by ID, key or name: a UUID as it stands, otherwise the first
/// team whose key or name matches; `NotFound("team '…'")` when none does.
/// `teams` (the workspace's teams) is only read when `value` is no UUID.
pub fn resolve_team(value: &str, teams: &Vec<Team>) -> (r: Result<String, CliError>)
    ensures
        spec_is_uuid(value@) ==> (r matches Ok(v) && v@ == value@),
        !spec_is_uuid(value@) ==> {
            ||| found_at(r, teams@, team_matches(value@), team_id())
            ||| no_match(teams@, team_matches(value@)) && not_found(r, "team "@, value@)
        },
{
    if is_uuid(value) {
        return Ok(value.to_owned());
    }
    let mut i: usize = 0;
    while i < teams.len()
        invariant
            i <= teams.len(),
            !spec_is_uuid(value@),
            forall|j: int| 0 <= j < i ==> !team_matches(value@)(#[trigger] teams@[j]),
        decreases teams.len() - i,
    {
        let t = &teams[i];
        if str_eq_ignore_case(t.key.as_str(), value) || str_eq_ignore_case(t.name.as_str(), value) {
            let r = Ok(t.id.clone());
            assert(first_match(teams@, team_matches(value@), i as int));
            return r;
        }
        i += 1;
    }
    Err(CliError::NotFound(quote("team ", value)))
}

// ---- users ----

/// How an assignee given by the user is found.
#[derive(Debug, Clone, PartialEq, Eq)]
pub enum AssigneeLookup {
    /// A UUID: the ID itself.
    Id(String),
    /// `me` (any case): the authenticated user.
    Viewer,
    /// Anything else: searched among the workspace's users.
    Directory,
}

/// The first step of resolving an assignee: a UUID is used as it stands, `me`
/// means the authenticated user, anything else is looked up.
pub fn assignee_lookup(value: &str) -> (r: AssigneeLookup)
    ensures
        spec_is_uuid(value@) ==> (r matches AssigneeLookup::Id(v) && v@ == value@),
        !spec_is_uuid(value@) && eq_ignore_case(value@, "me"@) ==> r == AssigneeLookup::Viewer,
        !spec_is_uuid(value@) && !eq_ignore_case(value@, "me"@) ==> r == AssigneeLookup::Directory,
{
    if is_uuid(value) {
        AssigneeLookup::Id(value.to_owned())
    } else if str_eq_ignore_case(value, "me") {
        AssigneeLookup::Viewer
    } else {
        AssigneeLookup::Directory
    }
}

pub open spec fn email_matches(value: Seq<char>) -> spec_fn(User) -> bool {
    |u: User| eq_ignore_case(u.email@, value)
}

pub open spec fn user_name_matches(value: Seq<char>) -> spec_fn(User) -> bool {
    |u: User| eq_ignore_case(u.display_name@, value) || eq_ignore_case(u.name@, value)
}

pub open spec fn user_id() -> spec_fn(User) -> Seq<char> {
    |u: User| u.id@
}

/// An assignee searched among the workspace's users: by email when the value
/// holds an `@`, else by display name or name; the first match wins.
/// `NotFound("user with email '…'")` or `NotFound("user '…'")` when none does.
pub fn resolve_assignee(value: &str, users: &Vec<User>) -> (r: Result<String, CliError>)
    ensures
        value@.contains('@') ==> {
            ||| found_at(r, users@, email_matches(value@), user_id())
            ||| no_match(users@, email_matches(value@)) && not_found(r, "user with email "@, value@)
        },
        !value@.contains('@') ==> {
            ||| found_at(r, users@, user_name_matches(value@), user_id())
            ||| no_match(users@, user_name_matches(value@)) && not_found(r, "user "@, value@)
        },
{
    let by_email = contains_char(value, '@');
    let mut i: usize = 0;
    while i < users.len()
        invariant
            i <= users.len(),
            by_email == value@.contains('@'),
            by_email ==> forall|j: int| 0 <= j < i ==> !email_matches(value@)(#[trigger] users@[j]),
            !by_email ==> forall|j: int| 0 <= j < i ==> !user_name_matches(value@)(#[trigger] users@[j]),
        decreases users.len() - i,
    {
        let u = &users[i];
        let hit = if by_email {
            str_eq_ignore_case(u.email.as_str(), value)
        } else {
            str_eq_ignore_case(u.display_name.as_str(), value) || str_eq_ignore_case(u.name.as_str(), value)
        };
        if hit {
            let r = Ok(u.id.clone());
            if by_email {
                assert(first_match(users@, email_matches(value@), i as int));
            } else {
                assert(first_match(users@, user_name_matches(value@), i as int));
            }
            return r;
        }
        i += 1;
    }
    if by_email {
        Err(CliError::NotFound(quote("user with email ", value)))
    } else {
        Err(CliError::NotFound(quote("user ", value)))
    }
}


/// Unfolding `matching` by one item.
pub proof fn lemma_matching_step<T>(s: Seq<T>, p: spec_fn(T) -> bool, i: int)
    requires
        0 <= i < s.len(),
    ensures
        matching(s.take(i + 1), p) == (if p(s[i]) {
            matching(s.take(i), p).push(s[i])
        } else {
            matching(s.take(i), p)
        }),
{
    assert(s.take(i + 1).drop_last() =~= s.take(i));
    assert(s.take(i + 1).last() == s[i]);
}

/// Every item `matching` keeps satisfies the predicate.
pub proof fn lemma_matching_satisfies<T>(s: Seq<T>, p: spec_fn(T) -> bool)
    ensures
        forall|i: int| 0 <= i < matching(s, p).len() ==> p(#[trigger] matching(s, p)[i]),
    decreases s.len(),
{
    if s.len() > 0 {
        let m = matching(s.drop_last(), p);
        lemma_matching_satisfies(s.drop_last(), p);
        assert forall|i: int| 0 <= i < matching(s, p).len() implies p(#[trigger] matching(s, p)[i]) by {
            if i < m.len() {
                assert(matching(s, p)[i] == m[i]);
            }
        }
    }
}

// ---- projects ----

pub open spec fn slug_matches(value: Seq<char>) -> spec_fn(ProjectSlim) -> bool {
    |p: ProjectSlim| eq_ignore_case(p.slug_id@, value)
}

pub open spec fn project_name_matches(value: Seq<char>) -> spec_fn(ProjectSlim) -> bool {
    |p: ProjectSlim| eq_ignore_case(p.name@, value)
}

pub open spec fn project_id() -> spec_fn(ProjectSlim) -> Seq<char> {
    |p: ProjectSlim| p.id@
}

pub open spec fn project_ids(ps: Seq<ProjectSlim>) -> Seq<Seq<char>> {
    ps.map_values(|p: ProjectSlim| p.id@)
}

pub open spec fn project_slugs(ps: Seq<ProjectSlim>) -> Seq<Seq<char>> {
    ps.map_values(|p: ProjectSlim| p.slug_id@)
}

/// The refusal of a project name that several projects share; it lists their
/// slugs.
pub open spec fn ambiguous_project(value: Seq<char>, named: Seq<ProjectSlim>) -> Seq<char> {
    "multiple projects named '"@ + value + "' found (slugs: "@ + join(project_slugs(named), ", "@)
        + "); pass a slug or project ID to disambiguate"@
}

/// A project given by ID, slug or name: a UUID as it stands; otherwise the
/// first project whose slug matches (a slug is unambiguous), else the one
/// project whose name matches. `NotFound("project '…'")` when no name matches,
/// `InvalidInput` listing the slugs when several do. `projects` is only read
/// when `value` is no UUID.
pub fn resolve_project(value: &str, projects: &Vec<ProjectSlim>) -> (r: Result<String, CliError>)
    ensures
        spec_is_uuid(value@) ==> (r matches Ok(v) && v@ == value@),
        !spec_is_uuid(value@) ==> {
            ||| found_at(r, projects@, slug_matches(value@), project_id())
            ||| no_match(projects@, slug_matches(value@)) && {
                let named = matching(projects@, project_name_matches(value@));
                ||| named.len() == 0 && not_found(r, "project "@, value@)
                ||| named.len() == 1 && (r matches Ok(v) && v@ == named[0].id@)
                ||| named.len() >= 2 && (r matches Err(CliError::InvalidInput(m)) && m@
                    == ambiguous_project(value@, named))
            }
        },
{
    if is_uuid(value) {
        return Ok(value.to_owned());
    }
    let mut i: usize = 0;
    while i < projects.len()
        invariant
            i <= projects.len(),
            !spec_is_uuid(value@),
            forall|j: int| 0 <= j < i ==> !slug_matches(value@)(#[trigger] projects@[j]),
        decreases projects.len() - i,
    {
        if str_eq_ignore_case(projects[i].slug_id.as_str(), value) {
            let r = Ok(projects[i].id.clone());
            assert(first_match(projects@, slug_matches(value@), i as int));
            return r;
        }
        i += 1;
    }
    let ghost pred = project_name_matches(value@);
    let mut ids: Vec<String> = Vec::new();
    let mut slugs: Vec<String> = Vec::new();
    let mut i: usize = 0;
    while i < projects.len()
        invariant
            i <= projects.len(),
            pred == project_name_matches(value@),
            string_views(ids@) == project_ids(matching(projects@.take(i as int), pred)),
            string_views(slugs@) == project_slugs(matching(projects@.take(i as int), pred)),
        decreases projects.len() - i,
    {
        proof {
            lemma_matching_step(projects@, pred, i as int);
        }
        let ghost before = matching(projects@.take(i as int), pred);
        if str_eq_ignore_case(projects[i].name.as_str(), value) {
            let ghost old_ids = ids@;
            let ghost old_slugs = slugs@;
            let p = &projects[i];
            ids.push(p.id.clone());
            slugs.push(p.slug_id.clone());
            assert(string_views(old_ids.push(p.id)) =~= string_views(old_ids).push(p.id@));
            assert(string_views(old_slugs.push(p.slug_id)) =~= string_views(old_slugs).push(p.slug_id@));
            assert(project_ids(before.push(*p)) =~= project_ids(before).push(p.id@));
            assert(project_slugs(before.push(*p)) =~= project_slugs(before).push(p.slug_id@));
        }
        i += 1;
    }
    assert(projects@.take(projects.len() as int) =~= projects@);
    let ghost named = matching(projects@, pred);
    if ids.len() == 0 {
        Err(CliError::NotFound(quote("project ", value)))
    } else if ids.len() == 1 {
        assert(ids@[0]@ == string_views(ids@)[0]);
        Ok(ids[0].clone())
    } else {
        let mut m = "multiple projects named '".to_owned();
        m.append(value);
        m.append("' found (slugs: ");
        let listed = join_strings(&slugs, ", ");
        m.append(listed.as_str());
        m.append("); pass a slug or project ID to disambiguate");
        Err(CliError::InvalidInput(m))
    }
}

// ---- milestones ----

/// A milestone resolved from user input. `project_id` is known only when the
/// milestone was looked up by name (a UUID passes through without a fetch).
#[derive(Debug, Clone, PartialEq, Eq)]
pub struct ResolvedMilestone {
    pub id: String,
    pub project_id: Option<String>,
}

pub open spec fn milestone_name_matches(value: Seq<char>) -> spec_fn(MilestoneSummary) -> bool {
    |m: MilestoneSummary| eq_ignore_case(m.name@, value)
}

/// A milestone of that name, in the project `project_id` when one is given.
pub open spec fn milestone_matches(value: Seq<char>, project_id: Option<Seq<char>>) -> spec_fn(
    MilestoneSummary,
) -> bool {
    |m: MilestoneSummary| eq_ignore_case(m.name@, value) && (project_id is None || m.project.id@ == project_id->0)
}

/// `"{id} (due {target date or -})"`: how a refusal lists a milestone.
pub open spec fn due_entry(m: MilestoneSummary) -> Seq<char> {
    m.id@ + " (due "@ + (match m.target_date {
        Some(d) => d@,
        None => "-"@,
    }) + ")"@
}

pub open spec fn due_entries(ms: Seq<MilestoneSummary>) -> Seq<Seq<char>> {
    ms.map_values(|m: MilestoneSummary| due_entry(m))
}

pub open spec fn milestone_project_names(ms: Seq<MilestoneSummary>) -> Seq<Seq<char>> {
    ms.map_values(|m: MilestoneSummary| m.project.name@)
}

pub open spec fn milestone_ids(ms: Seq<MilestoneSummary>) -> Seq<Seq<char>> {
    ms.map_values(|m: MilestoneSummary| m.id@)
}

pub open spec fn milestone_project_ids(ms: Seq<MilestoneSummary>) -> Seq<Seq<char>> {
    ms.map_values(|m: MilestoneSummary| m.project.id@)
}

/// The refusal of a milestone name used twice in one project.
pub open spec fn ambiguous_milestone_in_project(value: Seq<char>, named: Seq<MilestoneSummary>) -> Seq<char> {
    "multiple milestones named '"@ + value + "' in this project: "@ + join(due_entries(named), ", "@)
        + "; pass a milestone ID"@
}

/// The refusal of a milestone name found in several projects.
pub open spec fn ambiguous_milestone(value: Seq<char>, named: Seq<MilestoneSummary>) -> Seq<char> {
    "multiple milestones named '"@ + value + "' found in projects: "@ + join(
        milestone_project_names(named),
        ", "@,
    ) + "; pass --project or a milestone ID to disambiguate"@
}

fn due_text(m: &MilestoneSummary) -> (r: String)
    ensures
        r@ == due_entry(*m),
{
    let mut s = m.id.clone();
    s.append(" (due ");
    match &m.target_date {
        Some(d) => s.append(d.as_str()),
        None => s.append("-"),
    }
    s.append(")");
    s
}

/// A milestone given by UUID or name. A UUID passes through with no project;
/// otherwise among `milestones` (the API's answer to a lookup by this name)
/// those whose name matches count, and only those of the project `project_id`
/// when one is given: one is the answer, with its project; none is
/// `NotFound("milestone '…'")`; several are refused with `InvalidInput`,
/// listing their IDs and due dates when a project was given, else their
/// projects.
pub fn resolve_milestone(value: &str, project_id: Option<&str>, milestones: &Vec<MilestoneSummary>) -> (r:
    Result<ResolvedMilestone, CliError>)
    ensures
        spec_is_uuid(value@) ==> (r matches Ok(m) && m.id@ == value@ && m.project_id is None),
        !spec_is_uuid(value@) ==> {
            let named = matching(milestones@, milestone_matches(value@, opt_view(project_id)));
            ||| named.len() == 0 && (r matches Err(CliError::NotFound(m)) && m@ == quoted(
                "milestone "@,
                value@,
            ))
            ||| named.len() == 1 && (r matches Ok(m) && m.id@ == named[0].id@ && (m.project_id matches Some(
                p,
            ) && p@ == named[0].project.id@))
            ||| named.len() >= 2 && project_id is Some && (r matches Err(CliError::InvalidInput(m)) && m@
                == ambiguous_milestone_in_project(value@, named))
            ||| named.len() >= 2 && project_id is None && (r matches Err(CliError::InvalidInput(m)) && m@
                == ambiguous_milestone(value@, named))
        },
        !spec_is_uuid(value@) ==> (project_id matches Some(p) ==> (r matches Ok(m) ==> (m.project_id matches Some(
            q,
        ) && q@ == p@))),
{
    if is_uuid(value) {
        return Ok(ResolvedMilestone { id: value.to_owned(), project_id: None });
    }
    let ghost pred = milestone_matches(value@, opt_view(project_id));
    let mut ids: Vec<String> = Vec::new();
    let mut pids: Vec<String> = Vec::new();
    let mut dues: Vec<String> = Vec::new();
    let mut pnames: Vec<String> = Vec::new();
    let mut i: usize = 0;
    while i < milestones.len()
        invariant
            i <= milestones.len(),
            pred == milestone_matches(value@, opt_view(project_id)),
            string_views(ids@) == milestone_ids(matching(milestones@.take(i as int), pred)),
            string_views(pids@) == milestone_project_ids(matching(milestones@.take(i as int), pred)),
            string_views(dues@) == due_entries(matching(milestones@.take(i as int), pred)),
            string_views(pnames@) == milestone_project_names(matching(milestones@.take(i as int), pred)),
        decreases milestones.len() - i,
    {
        proof {
            lemma_matching_step(milestones@, pred, i as int);
        }
        let ghost before = matching(milestones@.take(i as int), pred);
        let m = &milestones[i];
        let in_project = match project_id {
            Some(p) => str_eq(m.project.id.as_str(), p),
            None => true,
        };
        if in_project && str_eq_ignore_case(m.name.as_str(), value) {
            let ghost o1 = ids@;
            let ghost o2 = pids@;
            let ghost o3 = dues@;
            let ghost o4 = pnames@;
            ids.push(m.id.clone());
            pids.push(m.project.id.clone());
            dues.push(due_text(m));
            pnames.push(m.project.name.clone());
            assert(string_views(ids@) =~= string_views(o1).push(m.id@));
            assert(string_views(pids@) =~= string_views(o2).push(m.project.id@));
            assert(string_views(dues@) =~= string_views(o3).push(due_entry(*m)));
            assert(string_views(pnames@) =~= string_views(o4).push(m.project.name@));
            assert(milestone_ids(before.push(*m)) =~= milestone_ids(before).push(m.id@));
            assert(milestone_project_ids(before.push(*m)) =~= milestone_project_ids(before).push(
                m.project.id@,
            ));
            assert(due_entries(before.push(*m)) =~= due_entries(before).push(due_entry(*m)));
            assert(milestone_project_names(before.push(*m)) =~= milestone_project_names(before).push(
                m.project.name@,
            ));
        }
        i += 1;
    }
    assert(milestones@.take(milestones.len() as int) =~= milestones@);
    let ghost named = matching(milestones@, pred);
    proof {
        lemma_matching_satisfies(milestones@, pred);
    }
    if ids.len() == 0 {
        Err(CliError::NotFound(quote("milestone ", value)))
    } else if ids.len() == 1 {
        assert(ids@[0]@ == string_views(ids@)[0]);
        assert(pids@[0]@ == string_views(pids@)[0]);
        Ok(ResolvedMilestone { id: ids[0].clone(), project_id: Some(pids[0].clone()) })
    } else if project_id.is_some() {
        let mut msg = "multiple milestones named '".to_owned();
        msg.append(value);
        msg.append("' in this project: ");
        let listed = join_strings(&dues, ", ");
        msg.append(listed.as_str());
        msg.append("; pass a milestone ID");
        Err(CliError::InvalidInput(msg))
    } else {
        let mut msg = "multiple milestones named '".to_owned();
        msg.append(value);
        msg.append("' found in projects: ");
        let listed = join_strings(&pnames, ", ");
        msg.append(listed.as_str());
        msg.append("; pass --project or a milestone ID to disambiguate");
        Err(CliError::InvalidInput(msg))
    }
}

// ---- labels ----

pub open spec fn label_name_matches(value: Seq<char>) -> spec_fn(IssueLabel) -> bool {
    |l: IssueLabel| eq_ignore_case(l.name@, value)
}

/// A label of that name that belongs to the team `team_id`.
pub open spec fn label_of_team(value: Seq<char>, team_id: Seq<char>) -> spec_fn(IssueLabel) -> bool {
    |l: IssueLabel| eq_ignore_case(l.name@, value) && (l.team matches Some(t) && t.id@ == team_id)
}

/// A workspace label (of no team) of that name.
pub open spec fn label_of_workspace(value: Seq<char>) -> spec_fn(IssueLabel) -> bool {
    |l: IssueLabel| eq_ignore_case(l.name@, value) && l.team is None
}

pub open spec fn label_id() -> spec_fn(IssueLabel) -> Seq<char> {
    |l: IssueLabel| l.id@
}

/// Where a label lives, as a refusal lists it: its team's key, or `workspace`.
pub open spec fn label_scope(l: IssueLabel) -> Seq<char> {
    match l.team {
        Some(t) => t.key@,
        None => "workspace"@,
    }
}

pub open spec fn label_scopes(ls: Seq<IssueLabel>) -> Seq<Seq<char>> {
    ls.map_values(|l: IssueLabel| label_scope(l))
}

pub open spec fn label_ids(ls: Seq<IssueLabel>) -> Seq<Seq<char>> {
    ls.map_values(|l: IssueLabel| l.id@)
}

/// The refusal of a label name that several labels share.
pub open spec fn ambiguous_label(value: Seq<char>, named: Seq<IssueLabel>) -> Seq<char> {
    "multiple labels named '"@ + value + "' found ("@ + join(label_scopes(named), ", "@)
        + "); pass a label ID to disambiguate"@
}

fn scope_text(l: &IssueLabel) -> (r: String)
    ensures
        r@ == label_scope(*l),
{
    match &l.team {
        Some(t) => t.key.clone(),
        None => "workspace".to_owned(),
    }
}

/// The first label satisfying `p` with `team_id` as team (`Some`), or with no
/// team (`None`), among those named `value`.
fn first_scoped(value: &str, team_id: Option<&str>, labels: &Vec<IssueLabel>) -> (r: Option<usize>)
    ensures
        match team_id {
            Some(tid) => match r {
                Some(i) => first_match(labels@, label_of_team(value@, tid@), i as int),
                None => no_match(labels@, label_of_team(value@, tid@)),
            },
            None => match r {
                Some(i) => first_match(labels@, label_of_workspace(value@), i as int),
                None => no_match(labels@, label_of_workspace(value@)),
            },
        },
{
    let mut i: usize = 0;
    while i < labels.len()
        invariant
            i <= labels.len(),
            match team_id {
                Some(tid) => forall|j: int| 0 <= j < i ==> !label_of_team(value@, tid@)(#[trigger] labels@[j]),
                None => forall|j: int| 0 <= j < i ==> !label_of_workspace(value@)(#[trigger] labels@[j]),
            },
        decreases labels.len() - i,
    {
        let l = &labels[i];
        let scoped = match (&l.team, team_id) {
            (Some(t), Some(tid)) => str_eq(t.id.as_str(), tid),
            (None, None) => true,
            _ => false,
        };
        if scoped && str_eq_ignore_case(l.name.as_str(), value) {
            return Some(i);
        }
        i += 1;
    }
    None
}

/// A label given by ID or name: a UUID as it stands; otherwise the one label
/// whose name matches. When several share the name and a team is known, the
/// first of them in that team wins, else the first workspace label; when none
/// of those exists, or no team is known, the name is refused with
/// `InvalidInput` listing where each lives. `NotFound("label '…'")` when no
/// name matches. `labels` is only read when `value` is no UUID.
pub fn resolve_label(value: &str, team_id: Option<&str>, labels: &Vec<IssueLabel>) -> (r: Result<
    String,
    CliError,
>)
    ensures
        spec_is_uuid(value@) ==> (r matches Ok(v) && v@ == value@),
        !spec_is_uuid(value@) ==> {
            let named = matching(labels@, label_name_matches(value@));
            ||| named.len() == 0 && not_found(r, "label "@, value@)
            ||| named.len() == 1 && (r matches Ok(v) && v@ == named[0].id@)
            ||| named.len() >= 2 && (team_id matches Some(tid) && found_at(
                r,
                labels@,
                label_of_team(value@, tid@),
                label_id(),
            ))
            ||| named.len() >= 2 && (team_id matches Some(tid) && no_match(
                labels@,
                label_of_team(value@, tid@),
            ) && found_at(r, labels@, label_of_workspace(value@), label_id()))
            ||| named.len() >= 2 && (team_id is None || (team_id matches Some(tid) && no_match(
                labels@,
                label_of_team(value@, tid@),
            ) && no_match(labels@, label_of_workspace(value@)))) && (r matches Err(
                CliError::InvalidInput(m),
            ) && m@ == ambiguous_label(value@, named))
        },
{
    if is_uuid(value) {
        return Ok(value.to_owned());
    }
    let ghost pred = label_name_matches(value@);
    let mut ids: Vec<String> = Vec::new();
    let mut scopes: Vec<String> = Vec::new();
    let mut i: usize = 0;
    while i < labels.len()
        invariant
            i <= labels.len(),
            pred == label_name_matches(value@),
            string_views(ids@) == label_ids(matching(labels@.take(i as int), pred)),
            string_views(scopes@) == label_scopes(matching(labels@.take(i as int), pred)),
        decreases labels.len() - i,
    {
        proof {
            lemma_matching_step(labels@, pred, i as int);
        }
        let ghost before = matching(labels@.take(i as int), pred);
        let l = &labels[i];
        if str_eq_ignore_case(l.name.as_str(), value) {
            let ghost o1 = ids@;
            let ghost o2 = scopes@;
            ids.push(l.id.clone());
            scopes.push(scope_text(l));
            assert(string_views(ids@) =~= string_views(o1).push(l.id@));
            assert(string_views(scopes@) =~= string_views(o2).push(label_scope(*l)));
            assert(label_ids(before.push(*l)) =~= label_ids(before).push(l.id@));
            assert(label_scopes(before.push(*l)) =~= label_scopes(before).push(label_scope(*l)));
        }
        i += 1;
    }
    assert(labels@.take(labels.len() as int) =~= labels@);
    if ids.len() == 0 {
        return Err(CliError::NotFound(quote("label ", value)));
    } else if ids.len() == 1 {
        assert(ids@[0]@ == string_views(ids@)[0]);
        return Ok(ids[0].clone());
    }
    if let Some(tid) = team_id {
        match first_scoped(value, Some(tid), labels) {
            Some(k) => {
                let r = Ok(labels[k].id.clone());
                assert(first_match(labels@, label_of_team(value@, tid@), k as int));
                return r;
            },
            None => {},
        }
        match first_scoped(value, None, labels) {
            Some(k) => {
                let r = Ok(labels[k].id.clone());
                assert(first_match(labels@, label_of_workspace(value@), k as int));
                return r;
            },
            None => {},
        }
    }
    let mut msg = "multiple labels named '".to_owned();
    msg.append(value);
    msg.append("' found (");
    let listed = join_strings(&scopes, ", ");
    msg.append(listed.as_str());
    msg.append("); pass a label ID to disambiguate");
    Err(CliError::InvalidInput(msg))
}

// ---- workflow states ----

/// A state of that name, in the team `team_id` when one is given.
pub open spec fn state_matches(value: Seq<char>, team_id: Option<Seq<char>>) -> spec_fn(WorkflowState) -> bool {
    |s: WorkflowState| eq_ignore_case(s.name@, value) && (team_id is None || s.team.id@ == team_id->0)
}

pub open spec fn state_ids(ss: Seq<WorkflowState>) -> Seq<Seq<char>> {
    ss.map_values(|s: WorkflowState| s.id@)
}

pub open spec fn state_team_keys(ss: Seq<WorkflowState>) -> Seq<Seq<char>> {
    ss.map_values(|s: WorkflowState| s.team.key@)
}

/// The refusal of a state name that several teams use.
pub open spec fn ambiguous_state(value: Seq<char>, named: Seq<WorkflowState>) -> Seq<char> {
    "multiple workflow states named '"@ + value + "' found in teams: "@ + join(state_team_keys(named), ", "@)
        + "; specify --team to disambiguate"@
}

/// A workflow state given by ID or name: a UUID as it stands; otherwise the
/// states whose name matches, within the team `team_id` when one is given. The
/// first of them is the answer when there is one, or when a team is known;
/// several without a team are refused with `InvalidInput` listing their teams.
/// `NotFound("workflow state '…'")` when none matches. `states` is only read
/// when `value` is no UUID.
pub fn resolve_state(value: &str, team_id: Option<&str>, states: &Vec<WorkflowState>) -> (r: Result<
    String,
    CliError,
>)
    ensures
        spec_is_uuid(value@) ==> (r matches Ok(v) && v@ == value@),
        !spec_is_uuid(value@) ==> {
            let named = matching(states@, state_matches(value@, opt_view(team_id)));
            ||| named.len() == 0 && not_found(r, "workflow state "@, value@)
            ||| named.len() >= 1 && (named.len() == 1 || team_id is Some) && (r matches Ok(v) && v@
                == named[0].id@)
            ||| named.len() >= 2 && team_id is None && (r matches Err(CliError::InvalidInput(m)) && m@
                == ambiguous_state(value@, named))
        },
{
    if is_uuid(value) {
        return Ok(value.to_owned());
    }
    let ghost pred = state_matches(value@, opt_view(team_id));
    let mut ids: Vec<String> = Vec::new();
    let mut keys: Vec<String> = Vec::new();
    let mut i: usize = 0;
    while i < states.len()
        invariant
            i <= states.len(),
            pred == state_matches(value@, opt_view(team_id)),
            string_views(ids@) == state_ids(matching(states@.take(i as int), pred)),
            string_views(keys@) == state_team_keys(matching(states@.take(i as int), pred)),
        decreases states.len() - i,
    {
        proof {
            lemma_matching_step(states@, pred, i as int);
        }
        let ghost before = matching(states@.take(i as int), pred);
        let s = &states[i];
        let in_team = match team_id {
            Some(tid) => str_eq(s.team.id.as_str(), tid),
            None => true,
        };
        if in_team && str_eq_ignore_case(s.name.as_str(), value) {
            let ghost o1 = ids@;
            let ghost o2 = keys@;
            ids.push(s.id.clone());
            keys.push(s.team.key.clone());
            assert(string_views(ids@) =~= string_views(o1).push(s.id@));
            assert(string_views(keys@) =~= string_views(o2).push(s.team.key@));
            assert(state_ids(before.push(*s)) =~= state_ids(before).push(s.id@));
            assert(state_team_keys(before.push(*s)) =~= state_team_keys(before).push(s.team.key@));
        }
        i += 1;
    }
    assert(states@.take(states.len() as int) =~= states@);
    if ids.len() == 0 {
        Err(CliError::NotFound(quote("workflow state ", value)))
    } else if ids.len() == 1 || team_id.is_some() {
        assert(ids@[0]@ == string_views(ids@)[0]);
        Ok(ids[0].clone())
    } else {
        let mut msg = "multiple workflow states named '".to_owned();
        msg.append(value);
        msg.append("' found in teams: ");
        let listed = join_strings(&keys, ", ");
        msg.append(listed.as_str());
        msg.append("; specify --team to disambiguate");
        Err(CliError::InvalidInput(msg))
    }
}
// ---- case ----

proof fn lemma_folded_same_class(a: char, b: char)
    requires
        folded(a) == folded(b),
    ensures
        (a == '-') == (b == '-'),
        (a == '@') == (b == '@'),
        is_hex_digit(a) == is_hex_digit(b),
{
}

/// Lookups by key, name, slug or email ignore ASCII case: two spellings of a
/// value that differ only in the case of ASCII letters are both UUIDs or
/// neither, both hold an `@` or neither, both are `me` or neither, and select
/// exactly the same teams, users, projects, milestones, labels and workflow
/// states.
pub proof fn lemma_lookup_ignores_case(v1: Seq<char>, v2: Seq<char>)
    requires
        eq_ignore_case(v1, v2),
    ensures
        spec_is_uuid(v1) == spec_is_uuid(v2),
        v1.contains('@') == v2.contains('@'),
        forall|w: Seq<char>| #[trigger] eq_ignore_case(w, v1) == eq_ignore_case(w, v2),
        forall|t: Team| #[trigger] team_matches(v1)(t) == team_matches(v2)(t),
        forall|u: User| #[trigger] email_matches(v1)(u) == email_matches(v2)(u),
        forall|u: User| #[trigger] user_name_matches(v1)(u) == user_name_matches(v2)(u),
        forall|p: ProjectSlim| #[trigger] slug_matches(v1)(p) == slug_matches(v2)(p),
        forall|p: ProjectSlim| #[trigger] project_name_matches(v1)(p) == project_name_matches(v2)(p),
        forall|m: MilestoneSummary| #[trigger] milestone_name_matches(v1)(m) == milestone_name_matches(v2)(m),
        forall|m: MilestoneSummary, pid: Option<Seq<char>>| #[trigger] milestone_matches(v1, pid)(m)
            == milestone_matches(v2, pid)(m),
        forall|l: IssueLabel| #[trigger] label_name_matches(v1)(l) == label_name_matches(v2)(l),
        forall|l: IssueLabel, tid: Seq<char>| #[trigger] label_of_team(v1, tid)(l) == label_of_team(v2, tid)(l),
        forall|l: IssueLabel| #[trigger] label_of_workspace(v1)(l) == label_of_workspace(v2)(l),
        forall|st: WorkflowState, tid: Option<Seq<char>>| #[trigger] state_matches(v1, tid)(st) == state_matches(
            v2,
            tid,
        )(st),
{
    assert forall|w: Seq<char>| #[trigger] eq_ignore_case(w, v1) == eq_ignore_case(w, v2) by {
        if w.len() == v1.len() {
            assert forall|i: int| 0 <= i < w.len() implies (folded(w[i]) == folded(v1[i])) == (folded(w[i])
                == folded(v2[i])) by {
                assert(folded(v1[i]) == folded(v2[i]));
            }
        }
    }
    assert forall|i: int| 0 <= i < v1.len() implies {
        &&& (v1[i] == '-') == (v2[i] == '-')
        &&& (v1[i] == '@') == (v2[i] == '@')
        &&& is_hex_digit(v1[i]) == is_hex_digit(v2[i])
    } by {
        assert(folded(v1[i]) == folded(v2[i]));
        lemma_folded_same_class(v1[i], v2[i]);
    }
    if v1.contains('@') {
        let i = choose|i: int| 0 <= i < v1.len() && v1[i] == '@';
        assert(v2[i] == '@');
    }
    if v2.contains('@') {
        let i = choose|i: int| 0 <= i < v2.len() && v2[i] == '@';
        assert(v1[i] == '@');
    }
    if spec_is_uuid(v1) {
        assert forall|i: int| 0 <= i < 36 implies if is_dash_position(i) {
            #[trigger] v2[i] == '-'
        } else {
            is_hex_digit(v2[i])
        } by {
            assert(v1[i] == '-' || is_hex_digit(v1[i]));
        }
    }
    if spec_is_uuid(v2) {
        assert forall|i: int| 0 <= i < 36 implies if is_dash_position(i) {
            #[trigger] v1[i] == '-'
        } else {
            is_hex_digit(v1[i])
        } by {
            assert(v2[i] == '-' || is_hex_digit(v2[i]));
        }
    }
}
} // verus!
