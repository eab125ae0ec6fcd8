use rand::rngs::SmallRng;
use vstd::prelude::*;

use crate::catalog::{total_weight, Catalog, Quest};
use crate::costs::costs_or_fallback;
use crate::kills::{possible_tally, KillTally};
use crate::player::PlayerState;
use crate::random::seeded_rng;
use crate::report::RunRecord;
use crate::sampler::{lemma_candidates_same_gates, selected};
use crate::state::{
    exp_after, fresh_data, task_from, turael_offers, SlayerState, SlayerStateView, Task, TaskState,
    STORAGE_UNLOCK_COST,
};
use crate::strategy::{rule_allowed, Policy, SimulationAction};

verus! {

/// Where a run starts: the character's progression and task situation.
#[derive(Clone, Debug)]
pub struct SimulationStartPoint {
    pub slayer_exp: u32,
    pub quests_done: Vec<Quest>,
    pub task_streak: u32,
    pub points: u32,
    pub task_state: TaskState,
    pub storage_unlocked: bool,
}

/// How a run ended.
#[derive(Clone, Copy, PartialEq, Eq, Structural, Debug)]
pub enum RunOutcome {
    /// The policy reached its goal.
    Success,
    /// The policy found the run stuck.
    Failure,
    /// The step ceiling was reached before the policy decided.
    StepLimit,
}

/// A policy asked for something the state machine does not allow: a fault
/// of the policy, never a failed run.
#[derive(Clone, Copy, PartialEq, Eq, Structural, Debug)]
pub enum RunError {
    /// The policy had no step to offer.
    NoAction,
    /// The policy chose a step whose conditions do not hold.
    IllegalAction(SimulationAction),
}

/// The end state of a run.
pub struct RunResult {
    pub state: SlayerState,
    pub player: PlayerState,
    pub outcome: RunOutcome,
    /// The states in which a step was taken, in order.
    pub visited: Ghost<Seq<(SlayerStateView, PlayerState)>>,
}

/// Whether the state machine allows `action` now: the task rules, and for a
/// new assignment an eligible entry of positive weight.
pub open spec fn action_allowed(s: SlayerStateView, player: &PlayerState, catalog: &Catalog, action: SimulationAction) -> bool {
    &&& rule_allowed(s, player, catalog, action)
    &&& action matches SimulationAction::NewAssignment(m) ==> total_weight(
        m.candidates(catalog, player, s.task_state.monster()),
    ) > 0
}

/// What an allowed step does: exactly, for the steps without chance; for a
/// completion, the effect of some tally that the kill simulation can give;
/// for a new assignment, the task that some draw below the total weight
/// selects, with an amount in its range.
pub open spec fn step_effect(
    old_s: SlayerStateView,
    new_s: SlayerStateView,
    old_p: &PlayerState,
    new_p: &PlayerState,
    catalog: &Catalog,
    action: SimulationAction,
) -> bool {
    match action {
        SimulationAction::CompleteTask => {
            let t = old_s.task_state->Active_0;
            exists|tally: KillTally|
                possible_tally(
                    costs_or_fallback(t.monster),
                    t.amount,
                    catalog.info(t.monster).slayer_exp,
                    tally,
                ) && new_s == old_s.after_complete(catalog.era, tally) && new_p.slayer_exp == exp_after(
                    old_p.slayer_exp,
                    tally.exp,
                )
        },
        SimulationAction::PointSkip => new_s == old_s.after_skip(),
        SimulationAction::NewAssignment(m) => {
            let cands = m.candidates(catalog, old_p, old_s.task_state.monster());
            exists|d: int, t: Task|
                0 <= d < total_weight(cands) && task_from(cands[selected(cands, d)], m, t) && new_s
                    == old_s.after_assign(m, t)
        },
        SimulationAction::UnlockTaskStorage => new_s == (SlayerStateView {
            points: (old_s.points - STORAGE_UNLOCK_COST) as u32,
            ..old_s
        }) && new_p.storage_unlocked,
        SimulationAction::StoreTask => new_s == old_s.after_store(),
        SimulationAction::UnstoreTask => new_s == old_s.after_unstore(),
    }
}

impl SlayerState {
    /// Whether the state machine allows `action` now.
    pub fn allows(&self, player: &PlayerState, catalog: &Catalog, action: SimulationAction) -> (r: bool)
        requires
            catalog.wf(),
        ensures
            r == action_allowed(self@, player, catalog, action),
    {
        match action {
            SimulationAction::CompleteTask => self.task_state.is_active(),
            SimulationAction::PointSkip => self.task_state.is_active() && self.points >= crate::state::SKIP_COST,
            SimulationAction::NewAssignment(m) => self.may_request(catalog, m, player),
            SimulationAction::UnlockTaskStorage => !player.storage_unlocked && self.points >= STORAGE_UNLOCK_COST,
            SimulationAction::StoreTask => player.storage_unlocked && self.task_state.is_active()
                && self.stored_task.is_none(),
            SimulationAction::UnstoreTask => self.stored_task.is_some() && !self.task_state.is_active(),
        }
    }

    /// Carries out `action` where the state machine allows it; otherwise
    /// changes nothing and reports the illegal action.
    pub fn apply(&mut self, rng: &mut SmallRng, catalog: &Catalog, player: &mut PlayerState, action: SimulationAction) -> (r: Result<(), RunError>)
        requires
            old(self).wf(),
            catalog.wf(),
            old(player).wf(catalog),
        ensures
            final(self).wf(),
            final(player).wf(catalog),
            r is Ok <==> action_allowed(old(self)@, old(player), catalog, action),
            r is Err ==> r == Err::<(), RunError>(RunError::IllegalAction(action)) && final(self)@ == old(self)@
                && *final(player) == *old(player),
            r is Ok ==> step_effect(old(self)@, final(self)@, old(player), final(player), catalog, action),
            final(player).quests_done@ == old(player).quests_done@,
            final(player).slayer_exp >= old(player).slayer_exp,
            old(player).storage_unlocked ==> final(player).storage_unlocked,
    {
        if !self.allows(player, catalog, action) {
            return Err(RunError::IllegalAction(action));
        }
        match action {
            SimulationAction::CompleteTask => self.complete_assignment(rng, catalog, player),
            SimulationAction::PointSkip => self.point_skip(),
            SimulationAction::NewAssignment(m) => self.new_assignment(rng, catalog, m, player),
            SimulationAction::UnlockTaskStorage => self.unlock_task_storage(player),
            SimulationAction::StoreTask => self.store_task(player),
            SimulationAction::UnstoreTask => self.unstore_task(),
        }
        Ok(())
    }
}

impl TaskState {
    pub fn is_active(&self) -> (r: bool)
        ensures
            r == self is Active,
    {
        match self {
            TaskState::Active(_) => true,
            TaskState::Completed(_) => false,
        }
    }
}

/// The task state a run starts in: the start point's, with nothing stored
/// and fresh counters.
pub open spec fn start_state(start: SimulationStartPoint) -> SlayerStateView {
    SlayerStateView {
        points: start.points,
        task_streak: start.task_streak,
        task_state: start.task_state,
        stored_task: None,
        data: fresh_data(),
    }
}

/// The character a run starts with.
pub open spec fn start_player(start: SimulationStartPoint, catalog: &Catalog) -> PlayerState {
    PlayerState {
        slayer_exp: start.slayer_exp,
        slayer_level: catalog.level(start.slayer_exp) as u8,
        quests_done: start.quests_done,
        storage_unlocked: start.storage_unlocked,
    }
}

/// How a run ends before any chance is drawn, where it does: by the
/// policy's verdict on the start state; with `StepLimit` when no step may be
/// taken; with an error when the policy has no first step or one the state
/// machine refuses. `None` where the first step is allowed and taken.
pub open spec fn early_outcome(start: SimulationStartPoint, policy: Policy, catalog: &Catalog, max_steps: u64) -> Option<Result<RunOutcome, RunError>> {
    let s0 = start_state(start);
    let p0 = start_player(start, catalog);
    match policy.verdict(s0, &p0, catalog) {
        Some(true) => Some(Ok(RunOutcome::Success)),
        Some(false) => Some(Ok(RunOutcome::Failure)),
        None => if max_steps == 0 {
            Some(Ok(RunOutcome::StepLimit))
        } else {
            match policy.action(s0, &p0, catalog) {
                None => Some(Err(RunError::NoAction)),
                Some(a) => if !action_allowed(s0, &p0, catalog, a) {
                    Some(Err(RunError::IllegalAction(a)))
                } else {
                    None
                },
            }
        },
    }
}

/// Runs one replication: asks the policy whether the run is over, else for
/// a step, and carries the step out; at most `max_steps` steps are taken,
/// after which the verdict is asked once more.
/// A step the policy cannot give, or one the state machine does not allow,
/// ends the run with an error.
pub fn simulate_limpwurt(start: SimulationStartPoint, policy: Policy, catalog: &Catalog, rng: &mut SmallRng, max_steps: u64) -> (r: Result<RunResult, RunError>)
    requires
        catalog.wf(),
    ensures
        r matches Ok(res) ==> {
            &&& res.state.wf()
            &&& res.player.wf(catalog)
            &&& res.player.quests_done@ == start.quests_done@
            &&& res.player.slayer_exp >= start.slayer_exp
            &&& start.storage_unlocked ==> res.player.storage_unlocked
            &&& res.outcome == RunOutcome::Success ==> policy.verdict(res.state@, &res.player, catalog) == Some(true)
            &&& res.outcome == RunOutcome::Failure ==> policy.verdict(res.state@, &res.player, catalog) == Some(false)
            &&& res.outcome == RunOutcome::StepLimit ==> policy.verdict(res.state@, &res.player, catalog) is None
            &&& res.visited@.len() <= max_steps
            &&& res.outcome == RunOutcome::StepLimit ==> res.visited@.len() == max_steps
            &&& forall|i: int| 0 <= i < res.visited@.len() ==> policy.verdict(
                (#[trigger] res.visited@[i]).0,
                &res.visited@[i].1,
                catalog,
            ) is None
            &&& res.visited@.len() > 0 ==> res.visited@[0] == (start_state(start), start_player(start, catalog))
            &&& res.visited@.len() == 0 ==> res.state@ == start_state(start) && res.player == start_player(start, catalog)
        },
        early_outcome(start, policy, catalog, max_steps) matches Some(Ok(o)) ==> r matches Ok(res) && res.outcome
            == o && res.state@ == start_state(start) && res.player == start_player(start, catalog),
        early_outcome(start, policy, catalog, max_steps) matches Some(Err(e)) ==> r is Err && r->Err_0 == e,
{
    let ghost s0 = start_state(start);
    let ghost p0 = start_player(start, catalog);
    let SimulationStartPoint { slayer_exp, quests_done, task_streak, points, task_state, storage_unlocked } = start;
    let mut player = PlayerState::new(catalog, slayer_exp, quests_done, storage_unlocked);
    let mut state = SlayerState::new(points, task_streak, task_state);
    let mut current = policy;
    let mut steps: u64 = 0;
    let ghost mut visited: Seq<(SlayerStateView, PlayerState)> = Seq::empty();
    assert(player == p0);
    while steps < max_steps
        invariant
            catalog.wf(),
            state.wf(),
            player.wf(catalog),
            player.quests_done@ == start.quests_done@,
            player.slayer_exp >= start.slayer_exp,
            start.storage_unlocked ==> player.storage_unlocked,
            policy is MinimizeSlayerLock <==> current is MinimizeSlayerLock,
            steps == 0 ==> state@ == s0 && player == p0 && current == policy,
            steps <= max_steps,
            s0 == start_state(start),
            p0 == start_player(start, catalog),
            steps > 0 ==> early_outcome(start, policy, catalog, max_steps) is None,
            visited.len() == steps,
            forall|i: int| 0 <= i < visited.len() ==> policy.verdict((#[trigger] visited[i]).0, &visited[i].1, catalog) is None,
            steps > 0 ==> visited[0] == (s0, p0),
        decreases max_steps - steps,
    {
        assert(policy.verdict(state@, &player, catalog) == current.verdict(state@, &player, catalog)) by {
            match policy {
                Policy::MinimizeSlayerLock => {},
                Policy::Superiors(_) => {},
            }
        }
        match current.should_terminate(&state, &player, catalog) {
            Some(true) => {
                return Ok(RunResult { state, player, outcome: RunOutcome::Success, visited: Ghost(visited) });
            },
            Some(false) => {
                return Ok(RunResult { state, player, outcome: RunOutcome::Failure, visited: Ghost(visited) });
            },
            None => {},
        }
        proof {
            visited = visited.push((state@, player));
        }
        let action = match current.select_action(&state, &player, catalog) {
            Some(a) => a,
            None => {
                return Err(RunError::NoAction);
            },
        };
        assert(steps == 0 ==> policy.action(s0, &p0, catalog) == Some(action));
        let ghost before = state@;
        let ghost before_player = player;
        match state.apply(rng, catalog, &mut player, action) {
            Ok(()) => {},
            Err(e) => {
                return Err(e);
            },
        }
        assert(steps == 0 ==> action_allowed(s0, &p0, catalog, action));
        steps = steps + 1;
    }
    assert(policy.verdict(state@, &player, catalog) == current.verdict(state@, &player, catalog)) by {
        match policy {
            Policy::MinimizeSlayerLock => {},
            Policy::Superiors(_) => {},
        }
    }
    match current.should_terminate(&state, &player, catalog) {
        Some(true) => Ok(RunResult { state, player, outcome: RunOutcome::Success, visited: Ghost(visited) }),
        Some(false) => Ok(RunResult { state, player, outcome: RunOutcome::Failure, visited: Ghost(visited) }),
        None => Ok(RunResult { state, player, outcome: RunOutcome::StepLimit, visited: Ghost(visited) }),
    }
}

impl SimulationStartPoint {
    /// A copy of the start point.
    pub fn duplicate(&self) -> (r: SimulationStartPoint)
        ensures
            r.slayer_exp == self.slayer_exp,
            r.quests_done@ == self.quests_done@,
            r.task_streak == self.task_streak,
            r.points == self.points,
            r.task_state == self.task_state,
            r.storage_unlocked == self.storage_unlocked,
    {
        let mut quests: Vec<Quest> = Vec::new();
        let mut i: usize = 0;
        while i < self.quests_done.len()
            invariant
                i <= self.quests_done.len(),
                quests@ == self.quests_done@.take(i as int),
            decreases self.quests_done.len() - i,
        {
            quests.push(self.quests_done[i]);
            i = i + 1;
            assert(quests@ =~= self.quests_done@.take(i as int));
        }
        assert(self.quests_done@.take(self.quests_done.len() as int) == self.quests_done@);
        SimulationStartPoint {
            slayer_exp: self.slayer_exp,
            quests_done: quests,
            task_streak: self.task_streak,
            points: self.points,
            task_state: self.task_state,
            storage_unlocked: self.storage_unlocked,
        }
    }
}

/// What a replication's result promises: the record of a run that ends
/// before any chance is drawn is known from the start point, and so is a
/// fault of the policy at its first step.
pub open spec fn replicate_post(start: SimulationStartPoint, policy: Policy, catalog: &Catalog, max_steps: u64, r: Result<RunRecord, RunError>) -> bool {
    match early_outcome(start, policy, catalog, max_steps) {
        Some(Ok(o)) => r matches Ok(rec) && rec.outcome == o && rec.end_points == start.points
            && rec.total_points == 0 && rec.max_points == 0 && rec.min_points == u64::MAX,
        Some(Err(e)) => r == Err::<RunRecord, RunError>(e),
        None => true,
    }
}

proof fn lemma_early_outcome_same_start(a: SimulationStartPoint, b: SimulationStartPoint, policy: Policy, catalog: &Catalog, max_steps: u64)
    requires
        a.slayer_exp == b.slayer_exp,
        a.quests_done@ == b.quests_done@,
        a.task_streak == b.task_streak,
        a.points == b.points,
        a.task_state == b.task_state,
        a.storage_unlocked == b.storage_unlocked,
    ensures
        early_outcome(a, policy, catalog, max_steps) == early_outcome(b, policy, catalog, max_steps),
{
    let pa = start_player(a, catalog);
    let pb = start_player(b, catalog);
    assert forall|x: crate::catalog::Assignment| pa.receives(catalog, x) == pb.receives(catalog, x) by {}
    assert forall|m: crate::catalog::Monster| turael_offers(catalog, &pa, m) == turael_offers(catalog, &pb, m) by {}
    assert forall|m: crate::catalog::SlayerMaster, last: crate::catalog::Monster|
        m.candidates(catalog, &pa, last) == m.candidates(catalog, &pb, last) by {
        lemma_candidates_same_gates(catalog.offerings(m), catalog, &pa, &pb, last);
    }
    assert(start_state(a) == start_state(b));
}

/// One replication from `start` with a generator seeded by `seed`, reduced
/// to its record.
pub fn replicate(start: &SimulationStartPoint, policy: Policy, catalog: &Catalog, seed: u64, max_steps: u64) -> (r: Result<RunRecord, RunError>)
    requires
        catalog.wf(),
    ensures
        replicate_post(*start, policy, catalog, max_steps, r),
{
    let mut rng = seeded_rng(seed);
    let copy = start.duplicate();
    proof {
        lemma_early_outcome_same_start(copy, *start, policy, catalog, max_steps);
    }
    match simulate_limpwurt(copy, policy, catalog, &mut rng, max_steps) {
        Ok(res) => {
            let rec = RunRecord::of_run(&res);
            proof {
                if early_outcome(*start, policy, catalog, max_steps) matches Some(Ok(o)) {
                    assert(res.state.slayer_data@ == fresh_data());
                }
            }
            Ok(rec)
        },
        Err(e) => Err(e),
    }
}

/// Runs one replication per seed, one after the other, keeping their
/// records in seed order; the first policy fault ends it with that error.
pub fn run_replications(start: &SimulationStartPoint, policy: Policy, catalog: &Catalog, seeds: &Vec<u64>, max_steps: u64) -> (r: Result<Vec<RunRecord>, RunError>)
    requires
        catalog.wf(),
    ensures
        seeds.len() == 0 ==> r is Ok && r->Ok_0.len() == 0,
        r matches Ok(records) ==> records.len() == seeds.len() && forall|i: int|
            0 <= i < records.len() ==> replicate_post(*start, policy, catalog, max_steps, Ok(#[trigger] records@[i])),
        r matches Err(e) ==> replicate_post(*start, policy, catalog, max_steps, Err(e)),
{
    let mut records: Vec<RunRecord> = Vec::new();
    let mut i: usize = 0;
    while i < seeds.len()
        invariant
            catalog.wf(),
            i <= seeds.len(),
            records.len() == i,
            forall|k: int| 0 <= k < i ==> replicate_post(*start, policy, catalog, max_steps, Ok(#[trigger] records@[k])),
        decreases seeds.len() - i,
    {
        match replicate(start, policy, catalog, seeds[i], max_steps) {
            Ok(rec) => records.push(rec),
            Err(e) => {
                return Err(e);
            },
        }
        i = i + 1;
    }
    Ok(records)
}

} // verus!
