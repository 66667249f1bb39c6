//! `issues create` and `issues update` as runs of lookups: each step says
//! which lookup to make next (the caller makes it) or hands over the finished
//! mutation. Lookups come in the order the options are read; only what was
//! given is looked up, and the first lookup that fails ends the run with its
//! error.

use vstd::prelude::*;
use crate::cli::issues::{
    IssueCreateInput, IssueCreateVariables, IssueUpdateInput, IssueUpdateVariables, PendingIssueCreate,
    PendingIssueUpdate, milestone_change, nonempty_ids,
};
use crate::common::clone_opt_string;
use crate::error::CliError;
use crate::issues::{
    TeamContext, apply_project_and_milestone, link_milestone_id, link_project_id, milestone_scope,
    needs_current_project, spec_needs_team, team_context,
};
use crate::resolve::{Found, Lookup, ResolvedMilestone, found_id, found_milestone};
use crate::text::spec_team_key;

verus! {

// ---- create ----

/// A run of `issues create`: the command's options, the lookup in flight,
/// and what the lookups found so far.
#[derive(Debug)]
pub struct IssueCreateRun {
    pub pending: PendingIssueCreate,
    /// The lookup in flight: 0 the team, 1 the assignee, 2 the state, 3 the
    /// project, 4 the milestone, 5 the next label.
    pub phase: u8,
    pub team_id: Option<String>,
    pub assignee_id: Option<String>,
    pub state_id: Option<String>,
    pub project_id: Option<String>,
    pub milestone: Option<ResolvedMilestone>,
    pub label_ids: Vec<String>,
}

/// What to do next in a run of `issues create`.
#[derive(Debug)]
pub enum IssueCreateStep {
    /// Make this lookup and hand what it found to the run.
    Ask(IssueCreateRun, Lookup),
    /// Send the mutation.
    Send(IssueCreateVariables),
    /// A lookup failed: report its error.
    Fail(CliError),
}

/// Whether lookup `k` is still to be made.
pub open spec fn create_needs(r: IssueCreateRun, k: nat) -> bool {
    if k == 0 {
        r.team_id is None
    } else if k == 1 {
        r.pending.assignee is Some
    } else if k == 2 {
        r.pending.state is Some
    } else if k == 3 {
        r.pending.project is Some
    } else if k == 4 {
        r.pending.milestone is Some
    } else if k == 5 {
        r.label_ids.len() < r.pending.labels.len()
    } else {
        false
    }
}

/// The first lookup from `k` on that is still to be made.
pub open spec fn create_scan(r: IssueCreateRun, k: nat) -> Option<nat>
    decreases 6 - k,
{
    if k >= 6 {
        None
    } else if create_needs(r, k) {
        Some(k)
    } else {
        create_scan(r, k + 1)
    }
}

/// The next lookup of a run going on from `k`: the team until it is found
/// (nothing is sent without it), then the first lookup from `k` on still to
/// be made.
pub open spec fn create_plan(r: IssueCreateRun, k: nat) -> Option<nat> {
    if r.team_id is None {
        Some(0)
    } else {
        create_scan(r, k)
    }
}

/// Lookup `k`: the state and the labels within the resolved team, the
/// milestone within the resolved project.
pub open spec fn create_lookup(r: IssueCreateRun, k: nat) -> Lookup {
    if k == 0 {
        Lookup::Team(r.pending.team)
    } else if k == 1 {
        Lookup::Assignee(r.pending.assignee->0)
    } else if k == 2 {
        Lookup::State { value: r.pending.state->0, team_id: r.team_id }
    } else if k == 3 {
        Lookup::Project(r.pending.project->0)
    } else if k == 4 {
        Lookup::Milestone { value: r.pending.milestone->0, project_id: r.project_id }
    } else {
        Lookup::Label { value: r.pending.labels@[r.label_ids.len() as int], team_id: r.team_id }
    }
}

/// The mutation once every lookup is made (the team among them).
pub open spec fn create_variables(r: IssueCreateRun) -> IssueCreateVariables {
    IssueCreateVariables {
        input: IssueCreateInput {
            team_id: r.team_id->0,
            title: r.pending.title,
            description: r.pending.description,
            assignee_id: r.assignee_id,
            priority: r.pending.priority,
            state_id: r.state_id,
            project_id: link_project_id(r.project_id, r.project_id, r.milestone),
            project_milestone_id: link_milestone_id(r.milestone),
            cycle_id: r.pending.cycle,
            label_ids: nonempty_ids(r.label_ids),
            due_date: r.pending.due_date,
            estimate: r.pending.estimate,
            parent_id: r.pending.parent,
        },
    }
}

/// `a` holds what `b` holds (whatever their lookups in flight).
pub open spec fn create_same_data(a: IssueCreateRun, b: IssueCreateRun) -> bool {
    &&& a.pending == b.pending
    &&& a.team_id == b.team_id
    &&& a.assignee_id == b.assignee_id
    &&& a.state_id == b.state_id
    &&& a.project_id == b.project_id
    &&& a.milestone == b.milestone
    &&& a.label_ids == b.label_ids
}

/// `s` is the step a run holding what `r` holds takes from lookup `k` on:
/// the first lookup still to be made, or the mutation when none is left.
pub open spec fn create_follows(r: IssueCreateRun, k: nat, s: IssueCreateStep) -> bool {
    match create_plan(r, k) {
        Some(p) => s matches IssueCreateStep::Ask(r2, l) && create_same_data(r2, r) && r2.phase == p && l
            == create_lookup(r, p),
        None => r.team_id is Some && s == IssueCreateStep::Send(create_variables(r)),
    }
}

/// Whether `f` answers the lookup in flight (no answer but the team's counts
/// before the team is found).
pub open spec fn create_accepts(r: IssueCreateRun, f: Found) -> bool {
    &&& r.phase < 6
    &&& create_needs(r, r.phase as nat)
    &&& (r.phase == 0 || r.team_id is Some)
    &&& if r.phase == 4 {
        f is Milestone
    } else {
        f is Id
    }
}

/// `new` is `old` with the answer `f` to its lookup in flight recorded.
pub open spec fn create_recorded(old: IssueCreateRun, f: Found, new: IssueCreateRun) -> bool {
    let id = found_id(f);
    &&& new.pending == old.pending
    &&& new.team_id == (if old.phase == 0 {
        id
    } else {
        old.team_id
    })
    &&& new.assignee_id == (if old.phase == 1 {
        id
    } else {
        old.assignee_id
    })
    &&& new.state_id == (if old.phase == 2 {
        id
    } else {
        old.state_id
    })
    &&& new.project_id == (if old.phase == 3 {
        id
    } else {
        old.project_id
    })
    &&& new.milestone == (if old.phase == 4 {
        found_milestone(f)
    } else {
        old.milestone
    })
    &&& new.label_ids@ == (if old.phase == 5 {
        old.label_ids@.push(id->0)
    } else {
        old.label_ids@
    })
}

/// Where a run goes on after an answer: to the next lookup, except that
/// labels are looked up one after another.
pub open spec fn create_resume(phase: nat) -> nat {
    if phase == 5 {
        5
    } else {
        phase + 1
    }
}

/// How far a run is from its end: the lookups after the one in flight and
/// the labels not found yet.
pub open spec fn create_remaining(r: IssueCreateRun) -> int {
    (6 - r.phase) + (r.pending.labels.len() - r.label_ids.len())
}

/// The next lookup a run makes from `k` on comes no earlier than `k`, and is
/// one still to be made.
/// (Before the team is found, the team is that lookup.)
pub proof fn lemma_create_plan_ahead(r: IssueCreateRun, k: nat)
    ensures
        create_plan(r, k) matches Some(p) ==> p < 6 && create_needs(r, p) && (r.team_id is Some ==> k <= p)
            && (r.team_id is None ==> p == 0),
{
    lemma_create_scan_ahead(r, k);
}

proof fn lemma_create_scan_ahead(r: IssueCreateRun, k: nat)
    ensures
        create_scan(r, k) matches Some(p) ==> k <= p < 6 && create_needs(r, p),
    decreases 6 - k,
{
    if k < 6 && !create_needs(r, k) {
        lemma_create_scan_ahead(r, k + 1);
    }
}

/// A finished create run sends what its lookups found and the options as the
/// user gave them: the team found, the assignee and state found, the title,
/// description, priority, cycle, due date, estimate and parent unchanged, and
/// the labels found (no label list when none was named).
pub proof fn lemma_create_sends_found(r: IssueCreateRun, k: nat, s: IssueCreateStep)
    requires
        create_follows(r, k, s),
    ensures
        s matches IssueCreateStep::Send(v) ==> (r.team_id == Some(v.input.team_id) && v.input.assignee_id
            == r.assignee_id && v.input.state_id == r.state_id && v.input.title == r.pending.title
            && v.input.description == r.pending.description && v.input.priority == r.pending.priority
            && v.input.cycle_id == r.pending.cycle && v.input.due_date == r.pending.due_date
            && v.input.estimate == r.pending.estimate && v.input.parent_id == r.pending.parent),
        s matches IssueCreateStep::Send(v) ==> (r.label_ids.len() == 0 ==> v.input.label_ids is None),
        s matches IssueCreateStep::Send(v) ==> (r.label_ids.len() > 0 ==> (v.input.label_ids matches Some(ids)
            && ids@ == r.label_ids@)),
{
}

/// Once the team lookup of a create run answers with an ID, the issue is
/// created in that team.
pub proof fn lemma_create_team_found(r: IssueCreateRun, id: String, mid: IssueCreateRun, k: nat, s: IssueCreateStep)
    requires
        r.phase == 0,
        create_recorded(r, Found::Id(id), mid),
        create_follows(mid, k, s),
    ensures
        s matches IssueCreateStep::Send(v) ==> v.input.team_id == id,
{
    lemma_create_sends_found(mid, k, s);
}

impl IssueCreateRun {
    /// Begin a run: the team is looked up first.
    pub fn start(pending: PendingIssueCreate) -> (s: IssueCreateStep)
        ensures
            s matches IssueCreateStep::Ask(r, l) && {
                &&& r.pending == pending
                &&& r.phase == 0
                &&& r.team_id is None
                &&& r.assignee_id is None
                &&& r.state_id is None
                &&& r.project_id is None
                &&& r.milestone is None
                &&& r.label_ids@.len() == 0
                &&& l == Lookup::Team(pending.team)
            },
    {
        let team = pending.team.clone();
        let r = IssueCreateRun {
            pending,
            phase: 0,
            team_id: None,
            assignee_id: None,
            state_id: None,
            project_id: None,
            milestone: None,
            label_ids: Vec::new(),
        };
        IssueCreateStep::Ask(r, Lookup::Team(team))
    }

    fn needs(&self, k: u8) -> (b: bool)
        ensures
            b == create_needs(*self, k as nat),
    {
        if k == 0 {
            self.team_id.is_none()
        } else if k == 1 {
            self.pending.assignee.is_some()
        } else if k == 2 {
            self.pending.state.is_some()
        } else if k == 3 {
            self.pending.project.is_some()
        } else if k == 4 {
            self.pending.milestone.is_some()
        } else if k == 5 {
            self.label_ids.len() < self.pending.labels.len()
        } else {
            false
        }
    }

    fn lookup(&self, k: u8) -> (l: Lookup)
        requires
            k < 6,
            create_needs(*self, k as nat),
        ensures
            l == create_lookup(*self, k as nat),
    {
        if k == 0 {
            Lookup::Team(self.pending.team.clone())
        } else if k == 1 {
            let v = self.pending.assignee.as_ref().unwrap().clone();
            Lookup::Assignee(v)
        } else if k == 2 {
            let v = self.pending.state.as_ref().unwrap().clone();
            Lookup::State { value: v, team_id: clone_opt_string(&self.team_id) }
        } else if k == 3 {
            let v = self.pending.project.as_ref().unwrap().clone();
            Lookup::Project(v)
        } else if k == 4 {
            let v = self.pending.milestone.as_ref().unwrap().clone();
            Lookup::Milestone { value: v, project_id: clone_opt_string(&self.project_id) }
        } else {
            let v = self.pending.labels[self.label_ids.len()].clone();
            Lookup::Label { value: v, team_id: clone_opt_string(&self.team_id) }
        }
    }

    fn into_variables(self) -> (v: IssueCreateVariables)
        requires
            self.team_id is Some,
        ensures
            v == create_variables(self),
    {
        let ghost r = self;
        let team_id = self.team_id.unwrap();
        let scope = clone_opt_string(&self.project_id);
        let link = apply_project_and_milestone(self.project_id, &scope, self.milestone);
        let v = self.pending.finish(team_id, self.assignee_id, self.state_id, link, self.label_ids);
        assert(v.input == create_variables(r).input);
        v
    }

    /// The step from lookup `k` on, with what this run holds.
    fn advance(self, k: u8) -> (s: IssueCreateStep)
        ensures
            create_follows(self, k as nat, s),
    {
        if self.team_id.is_none() {
            let l = self.lookup(0);
            let mut r = self;
            r.phase = 0;
            return IssueCreateStep::Ask(r, l);
        }
        let mut k = k;
        let ghost k0 = k as nat;
        while k < 6 && !self.needs(k)
            invariant
                k0 <= k,
                self.team_id is Some,
                create_scan(self, k0) == create_scan(self, k as nat),
            decreases 6 - k,
        {
            k = k + 1;
        }
        if k >= 6 {
            IssueCreateStep::Send(self.into_variables())
        } else {
            let l = self.lookup(k);
            let mut r = self;
            r.phase = k;
            IssueCreateStep::Ask(r, l)
        }
    }

    /// Take what the lookup in flight found. An error ends the run with it;
    /// an answer of the wrong kind, or one when no lookup is in flight, is
    /// ignored (the run goes on from where it is). Otherwise the answer is
    /// recorded and the run goes on to the next lookup still to be made, or
    /// to the mutation.
    pub fn answer(self, found: Result<Found, CliError>) -> (s: IssueCreateStep)
        ensures
            found matches Err(e) ==> s == IssueCreateStep::Fail(e),
            found matches Ok(f) ==> if create_accepts(self, f) {
                exists|mid: IssueCreateRun|
                    #[trigger] create_recorded(self, f, mid) && create_follows(mid, create_resume(self.phase as nat), s)
            } else {
                create_follows(self, self.phase as nat, s)
            },
            found matches Ok(f) ==> (create_accepts(self, f) ==> (s matches IssueCreateStep::Ask(r2, _)
                ==> create_remaining(r2) < create_remaining(self))),
            s matches IssueCreateStep::Send(v) ==> (v.input.title == self.pending.title && v.input.description
                == self.pending.description && v.input.priority == self.pending.priority && v.input.cycle_id
                == self.pending.cycle && v.input.due_date == self.pending.due_date && v.input.estimate
                == self.pending.estimate && v.input.parent_id == self.pending.parent),
            found matches Ok(Found::Id(id)) ==> (self.phase == 0 && create_accepts(self, Found::Id(id)) ==> (
            s matches IssueCreateStep::Send(v) ==> v.input.team_id == id)),
            found matches Ok(Found::Id(id)) ==> (self.phase == 1 && create_accepts(self, Found::Id(id)) ==> (
            s matches IssueCreateStep::Send(v) ==> v.input.assignee_id == Some(id))),
            !(found matches Ok(f) && self.phase == 1 && create_accepts(self, f)) ==> (
            s matches IssueCreateStep::Send(v) ==> v.input.assignee_id == self.assignee_id),
    {
        let f = match found {
            Err(e) => {
                return IssueCreateStep::Fail(e);
            },
            Ok(f) => f,
        };
        let k = self.phase;
        let fits = match &f {
            Found::Milestone(_) => k == 4,
            Found::Id(_) => k != 4,
            Found::IssueProject(_) => false,
        };
        if !(k < 6 && self.needs(k) && fits && (k == 0 || self.team_id.is_some())) {
            let ghost me = self;
            let s = self.advance(k);
            proof {
                lemma_create_sends_found(me, k as nat, s);
            }
            return s;
        }
        let ghost old = self;
        let ghost gf = f;
        let mut r = self;
        match f {
            Found::Id(id) => {
                if k == 0 {
                    r.team_id = Some(id);
                } else if k == 1 {
                    r.assignee_id = Some(id);
                } else if k == 2 {
                    r.state_id = Some(id);
                } else if k == 3 {
                    r.project_id = Some(id);
                } else {
                    r.label_ids.push(id);
                }
            },
            Found::Milestone(m) => {
                r.milestone = Some(m);
            },
            Found::IssueProject(_) => {},
        }
        assert(create_recorded(old, gf, r));
        let next: u8 = if k == 5 {
            5
        } else {
            k + 1
        };
        proof {
            lemma_create_plan_ahead(r, next as nat);
        }
        let ghost after = r;
        let s = r.advance(next);
        proof {
            lemma_create_sends_found(after, next as nat, s);
        }
        s
    }
}

// ---- update ----

/// A run of `issues update`: the command's options, the lookup in flight,
/// and what the lookups found so far.
#[derive(Debug)]
pub struct IssueUpdateRun {
    pub pending: PendingIssueUpdate,
    /// The lookup in flight: 0 the team, 1 the assignee, 2 the team named by
    /// the issue's identifier, 3 the state, 4 the issue's current project, 5
    /// the project, 6 the milestone, 7 the next label to add, 8 the next
    /// label to remove.
    pub phase: u8,
    pub team_id: Option<String>,
    pub assignee_id: Option<String>,
    /// The team the key in the issue's identifier resolved to, if it did.
    pub key_team: Option<String>,
    pub state_id: Option<String>,
    pub current_project: Option<String>,
    pub project_id: Option<String>,
    pub milestone: Option<ResolvedMilestone>,
    pub added: Vec<String>,
    pub removed: Vec<String>,
}

/// What to do next in a run of `issues update`.
#[derive(Debug)]
pub enum IssueUpdateStep {
    /// Make this lookup and hand what it found to the run.
    Ask(IssueUpdateRun, Lookup),
    /// Send the mutation.
    Send(IssueUpdateVariables),
    /// A lookup failed: report its error.
    Fail(CliError),
}

pub open spec fn update_needs_team(r: IssueUpdateRun) -> bool {
    spec_needs_team(
        r.pending.state is Some,
        r.pending.add_labels.len() as int,
        r.pending.remove_labels.len() as int,
    )
}

/// The team key to look up for the team context: when a state or labels are
/// named, no team was given, and the issue's identifier starts with a key.
pub open spec fn context_key(r: IssueUpdateRun) -> Option<Seq<char>> {
    if update_needs_team(r) && r.team_id is None {
        spec_team_key(r.pending.id@)
    } else {
        None
    }
}

/// The team that states and labels are looked up in: the one given with
/// `--team`, else the one the identifier's key resolved to; none when neither
/// is known or nothing is looked up by name.
pub open spec fn context_team(r: IssueUpdateRun) -> Option<String> {
    if !update_needs_team(r) {
        None
    } else if r.team_id is Some {
        r.team_id
    } else if spec_team_key(r.pending.id@) is Some {
        r.key_team
    } else {
        None
    }
}

/// The project a milestone name is looked up in: the one given, else the
/// issue's current one.
pub open spec fn update_scope(r: IssueUpdateRun) -> Option<String> {
    if r.project_id is Some {
        r.project_id
    } else {
        r.current_project
    }
}

pub open spec fn update_needs(r: IssueUpdateRun, k: nat) -> bool {
    if k == 0 {
        r.pending.team is Some
    } else if k == 1 {
        r.pending.assignee is Some
    } else if k == 2 {
        context_key(r) is Some
    } else if k == 3 {
        r.pending.state is Some
    } else if k == 4 {
        r.pending.milestone is Some && r.pending.project is None
    } else if k == 5 {
        r.pending.project is Some
    } else if k == 6 {
        r.pending.milestone is Some
    } else if k == 7 {
        r.added.len() < r.pending.add_labels.len()
    } else if k == 8 {
        r.removed.len() < r.pending.remove_labels.len()
    } else {
        false
    }
}

pub open spec fn update_plan(r: IssueUpdateRun, k: nat) -> Option<nat>
    decreases 9 - k,
{
    if k >= 9 {
        None
    } else if update_needs(r, k) {
        Some(k)
    } else {
        update_plan(r, k + 1)
    }
}

/// `l` is lookup `k`: the state and labels within the team context, the
/// milestone within the project given or the issue's current one.
pub open spec fn update_lookup(r: IssueUpdateRun, k: nat, l: Lookup) -> bool {
    if k == 0 {
        l == Lookup::Team(r.pending.team->0)
    } else if k == 1 {
        l == Lookup::Assignee(r.pending.assignee->0)
    } else if k == 2 {
        l matches Lookup::Team(key) && key@ == context_key(r)->0
    } else if k == 3 {
        l == (Lookup::State { value: r.pending.state->0, team_id: context_team(r) })
    } else if k == 4 {
        l == Lookup::IssueProject(r.pending.id)
    } else if k == 5 {
        l == Lookup::Project(r.pending.project->0)
    } else if k == 6 {
        l == (Lookup::Milestone { value: r.pending.milestone->0, project_id: update_scope(r) })
    } else if k == 7 {
        l == (Lookup::Label {
            value: r.pending.add_labels@[r.added.len() as int],
            team_id: context_team(r),
        })
    } else {
        l == (Lookup::Label {
            value: r.pending.remove_labels@[r.removed.len() as int],
            team_id: context_team(r),
        })
    }
}

/// The mutation once every lookup is made.
pub open spec fn update_variables(r: IssueUpdateRun) -> IssueUpdateVariables {
    IssueUpdateVariables {
        id: r.pending.id,
        input: IssueUpdateInput {
            team_id: r.team_id,
            title: r.pending.title,
            description: r.pending.description,
            assignee_id: r.assignee_id,
            priority: r.pending.priority,
            state_id: r.state_id,
            project_id: link_project_id(r.project_id, update_scope(r), r.milestone),
            project_milestone_id: milestone_change(r.pending.no_milestone, link_milestone_id(r.milestone)),
            cycle_id: r.pending.cycle,
            added_label_ids: nonempty_ids(r.added),
            removed_label_ids: nonempty_ids(r.removed),
            due_date: r.pending.due_date,
            estimate: r.pending.estimate,
            parent_id: r.pending.parent,
        },
    }
}

pub open spec fn update_same_data(a: IssueUpdateRun, b: IssueUpdateRun) -> bool {
    &&& a.pending == b.pending
    &&& a.team_id == b.team_id
    &&& a.assignee_id == b.assignee_id
    &&& a.key_team == b.key_team
    &&& a.state_id == b.state_id
    &&& a.current_project == b.current_project
    &&& a.project_id == b.project_id
    &&& a.milestone == b.milestone
    &&& a.added == b.added
    &&& a.removed == b.removed
}

/// `s` is the step a run holding what `r` holds takes from lookup `k` on.
pub open spec fn update_follows(r: IssueUpdateRun, k: nat, s: IssueUpdateStep) -> bool {
    match update_plan(r, k) {
        Some(p) => s matches IssueUpdateStep::Ask(r2, l) && update_same_data(r2, r) && r2.phase == p
            && update_lookup(r, p, l),
        None => s == IssueUpdateStep::Send(update_variables(r)),
    }
}

/// Whether `f` answers the lookup in flight.
pub open spec fn update_accepts(r: IssueUpdateRun, f: Found) -> bool {
    &&& r.phase < 9
    &&& update_needs(r, r.phase as nat)
    &&& if r.phase == 4 {
        f is IssueProject
    } else if r.phase == 6 {
        f is Milestone
    } else {
        f is Id
    }
}

/// `new` is `old` with the answer `f` to its lookup in flight recorded.
pub open spec fn update_recorded(old: IssueUpdateRun, f: Found, new: IssueUpdateRun) -> bool {
    let id = found_id(f);
    &&& new.pending == old.pending
    &&& new.team_id == (if old.phase == 0 {
        id
    } else {
        old.team_id
    })
    &&& new.assignee_id == (if old.phase == 1 {
        id
    } else {
        old.assignee_id
    })
    &&& new.key_team == (if old.phase == 2 {
        id
    } else {
        old.key_team
    })
    &&& new.state_id == (if old.phase == 3 {
        id
    } else {
        old.state_id
    })
    &&& new.current_project == (if old.phase == 4 {
        match f {
            Found::IssueProject(p) => p,
            _ => None,
        }
    } else {
        old.current_project
    })
    &&& new.project_id == (if old.phase == 5 {
        id
    } else {
        old.project_id
    })
    &&& new.milestone == (if old.phase == 6 {
        found_milestone(f)
    } else {
        old.milestone
    })
    &&& new.added@ == (if old.phase == 7 {
        old.added@.push(id->0)
    } else {
        old.added@
    })
    &&& new.removed@ == (if old.phase == 8 {
        old.removed@.push(id->0)
    } else {
        old.removed@
    })
}

/// `r` is a run of `pending` before any lookup.
pub open spec fn update_initial(r: IssueUpdateRun, pending: PendingIssueUpdate) -> bool {
    &&& r.pending == pending
    &&& r.team_id is None
    &&& r.assignee_id is None
    &&& r.key_team is None
    &&& r.state_id is None
    &&& r.current_project is None
    &&& r.project_id is None
    &&& r.milestone is None
    &&& r.added@.len() == 0
    &&& r.removed@.len() == 0
}

pub open spec fn update_resume(phase: nat) -> nat {
    if phase == 7 || phase == 8 {
        phase
    } else {
        phase + 1
    }
}

/// How far a run is from its end: the lookups after the one in flight and
/// the labels not found yet.
pub open spec fn update_remaining(r: IssueUpdateRun) -> int {
    (9 - r.phase) + (r.pending.add_labels.len() - r.added.len()) + (r.pending.remove_labels.len()
        - r.removed.len())
}

/// The next lookup a run makes from `k` on comes no earlier than `k`, and is
/// one still to be made.
pub proof fn lemma_update_plan_ahead(r: IssueUpdateRun, k: nat)
    ensures
        update_plan(r, k) matches Some(p) ==> k <= p < 9 && update_needs(r, p),
    decreases 9 - k,
{
    if k < 9 && !update_needs(r, k) {
        lemma_update_plan_ahead(r, k + 1);
    }
}

/// A finished update run sends, for the issue named, what its lookups found
/// and the options as the user gave them: the team, assignee and state found,
/// the title, description, priority, cycle, due date, estimate and parent
/// unchanged, and the labels found to add and to remove (each list left out
/// when empty).
pub proof fn lemma_update_sends_found(r: IssueUpdateRun, k: nat, s: IssueUpdateStep)
    requires
        update_follows(r, k, s),
    ensures
        s matches IssueUpdateStep::Send(v) ==> (v.id == r.pending.id && v.input.team_id == r.team_id
            && v.input.assignee_id == r.assignee_id && v.input.state_id == r.state_id && v.input.title
            == r.pending.title && v.input.description == r.pending.description && v.input.priority
            == r.pending.priority && v.input.cycle_id == r.pending.cycle && v.input.due_date
            == r.pending.due_date && v.input.estimate == r.pending.estimate && v.input.parent_id
            == r.pending.parent),
        s matches IssueUpdateStep::Send(v) ==> (r.added.len() == 0 ==> v.input.added_label_ids is None),
        s matches IssueUpdateStep::Send(v) ==> (r.added.len() > 0 ==> (v.input.added_label_ids matches Some(
            ids,
        ) && ids@ == r.added@)),
        s matches IssueUpdateStep::Send(v) ==> (r.removed.len() == 0 ==> v.input.removed_label_ids is None),
        s matches IssueUpdateStep::Send(v) ==> (r.removed.len() > 0 ==> (v.input.removed_label_ids matches Some(
            ids,
        ) && ids@ == r.removed@)),
{
}

/// Once the assignee lookup of an update run answers with an ID, the update
/// that is sent reassigns the issue to it.
pub proof fn lemma_update_assignee_found(
    r: IssueUpdateRun,
    id: String,
    mid: IssueUpdateRun,
    k: nat,
    s: IssueUpdateStep,
)
    requires
        r.phase == 1,
        update_recorded(r, Found::Id(id), mid),
        update_follows(mid, k, s),
    ensures
        s matches IssueUpdateStep::Send(v) ==> v.input.assignee_id == Some(id),
{
    lemma_update_sends_found(mid, k, s);
}

/// Answers to the other lookups leave the assignee found so far as it was.
pub proof fn lemma_update_keeps_assignee(r: IssueUpdateRun, f: Found, mid: IssueUpdateRun)
    requires
        r.phase != 1,
        update_recorded(r, f, mid),
    ensures
        mid.assignee_id == r.assignee_id,
        mid.pending == r.pending,
{
}

impl IssueUpdateRun {
    /// Begin a run: nothing found yet; the first lookup still to be made is
    /// asked for, or the mutation is ready when nothing is looked up.
    pub fn start(pending: PendingIssueUpdate) -> (s: IssueUpdateStep)
        ensures
            exists|r0: IssueUpdateRun| #[trigger] update_initial(r0, pending) && update_follows(r0, 0, s),
            pending.assignee is Some ==> s is Ask,
            s matches IssueUpdateStep::Send(v) ==> (v.id == pending.id && v.input.title == pending.title
                && v.input.description == pending.description && v.input.priority == pending.priority
                && v.input.cycle_id == pending.cycle && v.input.due_date == pending.due_date && v.input.estimate
                == pending.estimate && v.input.parent_id == pending.parent && v.input.assignee_id is None),
    {
        let r = IssueUpdateRun {
            pending,
            phase: 0,
            team_id: None,
            assignee_id: None,
            key_team: None,
            state_id: None,
            current_project: None,
            project_id: None,
            milestone: None,
            added: Vec::new(),
            removed: Vec::new(),
        };
        assert(update_initial(r, r.pending));
        let ghost r0 = r;
        let s = r.advance(0);
        proof {
            lemma_update_sends_found(r0, 0, s);
            reveal_with_fuel(update_plan, 2);
        }
        s
    }

    fn context(&self) -> (c: TeamContext)
        ensures
            !update_needs_team(*self) ==> c == TeamContext::Unknown,
            update_needs_team(*self) ==> match self.team_id {
                Some(t) => c == TeamContext::Known(t),
                None => match spec_team_key(self.pending.id@) {
                    Some(k) => c matches TeamContext::ByKey(key) && key@ == k,
                    None => c == TeamContext::Unknown,
                },
            },
    {
        team_context(
            self.pending.state.is_some(),
            self.pending.add_labels.len(),
            self.pending.remove_labels.len(),
            &self.team_id,
            self.pending.id.as_str(),
        )
    }

    fn context_team(&self) -> (t: Option<String>)
        ensures
            t == context_team(*self),
    {
        match self.context() {
            TeamContext::Unknown => None,
            TeamContext::Known(t) => Some(t),
            TeamContext::ByKey(_) => clone_opt_string(&self.key_team),
        }
    }

    fn needs(&self, k: u8) -> (b: bool)
        ensures
            b == update_needs(*self, k as nat),
    {
        if k == 0 {
            self.pending.team.is_some()
        } else if k == 1 {
            self.pending.assignee.is_some()
        } else if k == 2 {
            self.team_id.is_none() && match self.context() {
                TeamContext::ByKey(_) => true,
                _ => false,
            }
        } else if k == 3 {
            self.pending.state.is_some()
        } else if k == 4 {
            needs_current_project(&self.pending.milestone, &self.pending.project)
        } else if k == 5 {
            self.pending.project.is_some()
        } else if k == 6 {
            self.pending.milestone.is_some()
        } else if k == 7 {
            self.added.len() < self.pending.add_labels.len()
        } else if k == 8 {
            self.removed.len() < self.pending.remove_labels.len()
        } else {
            false
        }
    }

    fn scope(&self) -> (p: Option<String>)
        ensures
            p == update_scope(*self),
    {
        milestone_scope(&self.project_id, clone_opt_string(&self.current_project))
    }

    fn lookup(&self, k: u8) -> (l: Lookup)
        requires
            k < 9,
            update_needs(*self, k as nat),
        ensures
            update_lookup(*self, k as nat, l),
    {
        if k == 0 {
            Lookup::Team(self.pending.team.as_ref().unwrap().clone())
        } else if k == 1 {
            Lookup::Assignee(self.pending.assignee.as_ref().unwrap().clone())
        } else if k == 2 {
            match self.context() {
                TeamContext::ByKey(key) => Lookup::Team(key),
                _ => Lookup::IssueProject(self.pending.id.clone()),
            }
        } else if k == 3 {
            let v = self.pending.state.as_ref().unwrap().clone();
            Lookup::State { value: v, team_id: self.context_team() }
        } else if k == 4 {
            Lookup::IssueProject(self.pending.id.clone())
        } else if k == 5 {
            Lookup::Project(self.pending.project.as_ref().unwrap().clone())
        } else if k == 6 {
            let v = self.pending.milestone.as_ref().unwrap().clone();
            Lookup::Milestone { value: v, project_id: self.scope() }
        } else if k == 7 {
            let v = self.pending.add_labels[self.added.len()].clone();
            Lookup::Label { value: v, team_id: self.context_team() }
        } else {
            let v = self.pending.remove_labels[self.removed.len()].clone();
            Lookup::Label { value: v, team_id: self.context_team() }
        }
    }

    fn into_variables(self) -> (v: IssueUpdateVariables)
        ensures
            v == update_variables(self),
    {
        let ghost r = self;
        let scope = self.scope();
        let link = apply_project_and_milestone(self.project_id, &scope, self.milestone);
        let v = self.pending.finish(self.team_id, self.assignee_id, self.state_id, link, self.added, self.removed);
        assert(v.input == update_variables(r).input);
        v
    }

    fn advance(self, k: u8) -> (s: IssueUpdateStep)
        ensures
            update_follows(self, k as nat, s),
    {
        let mut k = k;
        let ghost k0 = k as nat;
        while k < 9 && !self.needs(k)
            invariant
                k0 <= k,
                update_plan(self, k0) == update_plan(self, k as nat),
            decreases 9 - k,
        {
            k = k + 1;
        }
        if k >= 9 {
            IssueUpdateStep::Send(self.into_variables())
        } else {
            let l = self.lookup(k);
            let mut r = self;
            r.phase = k;
            IssueUpdateStep::Ask(r, l)
        }
    }

    /// Take what the lookup in flight found. A failed lookup of the team
    /// named by the issue's identifier leaves the team context unknown and the
    /// run goes on; any other error ends the run with it. An answer of the
    /// wrong kind, or one when no lookup is in flight, is ignored. Otherwise
    /// the answer is recorded and the run goes on to the next lookup still to
    /// be made, or to the mutation.
    pub fn answer(self, found: Result<Found, CliError>) -> (s: IssueUpdateStep)
        ensures
            found matches Err(e) ==> if self.phase == 2 && update_needs(self, 2) {
                exists|mid: IssueUpdateRun|
                    #[trigger] update_recorded(self, Found::IssueProject(None), mid) && update_follows(mid, 3, s)
            } else {
                s == IssueUpdateStep::Fail(e)
            },
            found matches Ok(f) ==> if update_accepts(self, f) {
                exists|mid: IssueUpdateRun|
                    #[trigger] update_recorded(self, f, mid) && update_follows(mid, update_resume(self.phase as nat), s)
            } else {
                update_follows(self, self.phase as nat, s)
            },
            found matches Ok(f) ==> (update_accepts(self, f) ==> (s matches IssueUpdateStep::Ask(r2, _)
                ==> update_remaining(r2) < update_remaining(self))),
            (found is Err && self.phase == 2 && update_needs(self, 2)) ==> (s matches IssueUpdateStep::Ask(r2, _)
                ==> update_remaining(r2) < update_remaining(self)),
            s matches IssueUpdateStep::Send(v) ==> (v.id == self.pending.id && v.input.title == self.pending.title
                && v.input.description == self.pending.description && v.input.priority == self.pending.priority
                && v.input.cycle_id == self.pending.cycle && v.input.due_date == self.pending.due_date
                && v.input.estimate == self.pending.estimate && v.input.parent_id == self.pending.parent),
            found matches Ok(Found::Id(id)) ==> (self.phase == 1 && update_accepts(self, Found::Id(id)) ==> (
            s matches IssueUpdateStep::Send(v) ==> v.input.assignee_id == Some(id))),
            !(found matches Ok(f) && self.phase == 1 && update_accepts(self, f)) ==> (
            s matches IssueUpdateStep::Send(v) ==> v.input.assignee_id == self.assignee_id),
    {
        let k = self.phase;
        let f = match found {
            Err(e) => {
                if k == 2 && self.needs(2) {
                    let ghost old = self;
                    let mut r = self;
                    r.key_team = None;
                    assert(update_recorded(old, Found::IssueProject(None), r));
                    proof {
                        lemma_update_plan_ahead(r, 3);
                    }
                    let s = r.advance(3);
                    proof {
                        lemma_update_sends_found(r, 3, s);
                    }
                    return s;
                }
                return IssueUpdateStep::Fail(e);
            },
            Ok(f) => f,
        };
        let fits = match &f {
            Found::IssueProject(_) => k == 4,
            Found::Milestone(_) => k == 6,
            Found::Id(_) => k != 4 && k != 6,
        };
        if !(k < 9 && self.needs(k) && fits) {
            let ghost me = self;
            let s = self.advance(k);
            proof {
                lemma_update_sends_found(me, k as nat, s);
            }
            return s;
        }
        let ghost old = self;
        let ghost gf = f;
        let mut r = self;
        match f {
            Found::Id(id) => {
                if k == 0 {
                    r.team_id = Some(id);
                } else if k == 1 {
                    r.assignee_id = Some(id);
                } else if k == 2 {
                    r.key_team = Some(id);
                } else if k == 3 {
                    r.state_id = Some(id);
                } else if k == 5 {
                    r.project_id = Some(id);
                } else if k == 7 {
                    r.added.push(id);
                } else {
                    r.removed.push(id);
                }
            },
            Found::IssueProject(p) => {
                r.current_project = p;
            },
            Found::Milestone(m) => {
                r.milestone = Some(m);
            },
        }
        assert(update_recorded(old, gf, r));
        let next: u8 = if k == 7 || k == 8 {
            k
        } else {
            k + 1
        };
        proof {
            lemma_update_plan_ahead(r, next as nat);
        }
        let ghost after = r;
        let s = r.advance(next);
        proof {
            lemma_update_sends_found(after, next as nat, s);
        }
        s
    }
}

} // verus!
