use rand::rngs::SmallRng;
use vstd::prelude::*;

use crate::catalog::{
    master_points, monster_at, total_weight, Catalog, Monster, Quest, SlayerMaster, WorldState,
    MASTER_COUNT, MONSTER_COUNT,
};
use crate::costs::{
    costs_or_fallback, no_drops, no_supplies, sat_add, SlayerDrops, Supplies, STORE_TASK_TIME_MS,
    UNSTORE_TASK_TIME_MS,
};
use crate::kills::{batch_kills, run_kills, KillTally};
use crate::player::PlayerState;
use crate::random::random_in;
use crate::sampler::selected;

verus! {

/// Points that a point-skip costs.
pub const SKIP_COST: u32 = 30;

/// Points that unlocking task storage costs.
pub const STORAGE_UNLOCK_COST: u32 = 500;

/// A task: creature, the master that gave it, and how many to kill.
#[derive(Clone, Copy, PartialEq, Eq, Structural, Debug)]
pub struct Task {
    pub monster: Monster,
    pub master: SlayerMaster,
    pub amount: u32,
}

/// The live task slot.
#[derive(Clone, Copy, PartialEq, Eq, Structural, Debug)]
pub enum TaskState {
    Active(Task),
    /// Holds the creature of the task just finished (or skipped, or stored).
    Completed(Monster),
}

impl TaskState {
    /// The creature of the active task, or of the task just finished.
    pub open spec fn monster(self) -> Monster {
        match self {
            TaskState::Active(t) => t.monster,
            TaskState::Completed(m) => m,
        }
    }
}

impl Default for TaskState {
    fn default() -> (r: TaskState)
        ensures
            r == TaskState::Completed(Monster::Monkeys),
    {
        TaskState::Completed(Monster::Monkeys)
    }
}

/// `a + b` for `u32`, or `u32::MAX` where that does not fit.
pub open spec fn sat_add32(a: u32, b: int) -> u32 {
    if a + b > u32::MAX {
        u32::MAX
    } else {
        (a + b) as u32
    }
}

/// Position of a (master, creature) pair in the per-pair counters.
pub open spec fn pair_index(master: SlayerMaster, monster: Monster) -> int {
    master.ordinal() * MONSTER_COUNT + monster.ordinal()
}

pub fn pair_position(master: SlayerMaster, monster: Monster) -> (r: usize)
    ensures
        r == pair_index(master, monster),
        r < MASTER_COUNT * MONSTER_COUNT,
{
    master.index() * MONSTER_COUNT + monster.index()
}

/// Sum over `counts` of each count times the cost at its position.
pub open spec fn weighted_sum(counts: Seq<u64>, cost: spec_fn(int) -> int) -> int
    decreases counts.len(),
{
    if counts.len() == 0 {
        0
    } else {
        weighted_sum(counts.drop_last(), cost) + counts.last() * cost(counts.len() - 1)
    }
}

/// Travel time to the master of a (master, creature) position.
pub open spec fn pair_master_travel(i: int) -> int {
    SlayerMaster::at(i / MONSTER_COUNT as int).travel_ms() as int
}

/// Travel time to the creature of a (master, creature) position.
pub open spec fn pair_monster_travel(i: int) -> int {
    costs_or_fallback(monster_at(i % MONSTER_COUNT as int)).travel_ms()
}

/// Time per kill of the creature at a position.
pub open spec fn kill_time(i: int) -> int {
    costs_or_fallback(monster_at(i)).time_per_kill_ms as int
}

/// The run's counters as mathematical values.
pub struct SlayerDataView {
    pub total_points: u64,
    pub min_points: u64,
    pub max_points: u64,
    pub tasks_started: Seq<u64>,
    pub tasks_done: Seq<u64>,
    pub kills: Seq<u64>,
    pub num_stored_tasks: u64,
    pub num_unstored_tasks: u64,
    pub supplies_used: Supplies,
    pub drops: SlayerDrops,
}

impl SlayerDataView {
    /// Game time the run has taken, in milliseconds: travel to the masters
    /// for each task started, travel to the creatures for each task done,
    /// the kills, the storage moves and gathering the supplies used.
    pub open spec fn time_ms(self) -> int {
        weighted_sum(self.tasks_started, |i: int| pair_master_travel(i)) + weighted_sum(
            self.tasks_done,
            |i: int| pair_monster_travel(i),
        ) + weighted_sum(self.kills, |i: int| kill_time(i)) + STORE_TASK_TIME_MS
            * self.num_stored_tasks + UNSTORE_TASK_TIME_MS * self.num_unstored_tasks
            + self.supplies_used.gather_ms()
    }

    pub open spec fn tasks_started_total(self) -> int {
        weighted_sum(self.tasks_started, |i: int| 1)
    }
}

/// Counters of one run: tasks started and finished per (master, creature)
/// pair, kills per creature, points, storage moves, supplies and drops. Written
/// by the task operations, read only by policies and the aggregator.
#[derive(Clone, Debug)]
pub struct SlayerData {
    pub total_points: u64,
    pub min_points: u64,
    pub max_points: u64,
    /// Indexed by `pair_position`.
    pub total_tasks_started: Vec<u64>,
    /// Indexed by `pair_position`.
    pub total_tasks_done: Vec<u64>,
    /// Indexed by `Monster::index`; counts actual kills, not the amount assigned.
    pub total_kills: Vec<u64>,
    pub num_stored_tasks: u64,
    pub num_unstored_tasks: u64,
    pub supplies_used: Supplies,
    pub drops: SlayerDrops,
}

impl View for SlayerData {
    type V = SlayerDataView;

    open spec fn view(&self) -> SlayerDataView {
        SlayerDataView {
            total_points: self.total_points,
            min_points: self.min_points,
            max_points: self.max_points,
            tasks_started: self.total_tasks_started@,
            tasks_done: self.total_tasks_done@,
            kills: self.total_kills@,
            num_stored_tasks: self.num_stored_tasks,
            num_unstored_tasks: self.num_unstored_tasks,
            supplies_used: self.supplies_used,
            drops: self.drops,
        }
    }
}

/// The counters of a run that has not started.
pub open spec fn fresh_data() -> SlayerDataView {
    SlayerDataView {
        total_points: 0,
        min_points: u64::MAX,
        max_points: 0,
        tasks_started: Seq::new((MASTER_COUNT * MONSTER_COUNT) as nat, |i: int| 0u64),
        tasks_done: Seq::new((MASTER_COUNT * MONSTER_COUNT) as nat, |i: int| 0u64),
        kills: Seq::new(MONSTER_COUNT as nat, |i: int| 0u64),
        num_stored_tasks: 0,
        num_unstored_tasks: 0,
        supplies_used: no_supplies(),
        drops: no_drops(),
    }
}

pub open spec fn data_wf(d: SlayerDataView) -> bool {
    &&& d.tasks_started.len() == MASTER_COUNT * MONSTER_COUNT
    &&& d.tasks_done.len() == MASTER_COUNT * MONSTER_COUNT
    &&& d.kills.len() == MONSTER_COUNT
}

fn zeros(n: usize) -> (r: Vec<u64>)
    ensures
        r@ == Seq::new(n as nat, |i: int| 0u64),
{
    let mut v: Vec<u64> = Vec::new();
    let mut i: usize = 0;
    while i < n
        invariant
            i <= n,
            v@ == Seq::new(i as nat, |k: int| 0u64),
        decreases n - i,
    {
        v.push(0);
        i = i + 1;
        assert(v@ =~= Seq::new(i as nat, |k: int| 0u64));
    }
    v
}

/// Adds `n` to the counter at `i`, saturating.
fn bump(v: &mut Vec<u64>, i: usize, n: u64)
    requires
        i < old(v).len(),
    ensures
        final(v)@ == old(v)@.update(i as int, sat_add(old(v)@[i as int], n)),
{
    let x = v[i].saturating_add(n);
    v.set(i, x);
}

impl Default for SlayerData {
    fn default() -> (r: SlayerData)
        ensures
            r@ == fresh_data(),
    {
        SlayerData {
            total_points: 0,
            min_points: u64::MAX,
            max_points: 0,
            total_tasks_started: zeros(MASTER_COUNT * MONSTER_COUNT),
            total_tasks_done: zeros(MASTER_COUNT * MONSTER_COUNT),
            total_kills: zeros(MONSTER_COUNT),
            num_stored_tasks: 0,
            num_unstored_tasks: 0,
            supplies_used: Supplies::default(),
            drops: SlayerDrops::default(),
        }
    }
}

/// Sum over `counts` of each count times the cost at its position, where each
/// cost is below `2^41`.
fn weighted_total(counts: &Vec<u64>, costs: &Vec<u64>, Ghost(cost): Ghost<spec_fn(int) -> int>) -> (r: u128)
    requires
        counts.len() == costs.len(),
        counts.len() <= 1024,
        forall|i: int| 0 <= i < costs.len() ==> #[trigger] costs@[i] == cost(i) && costs@[i] < 0x200_0000_0000,
    ensures
        r == weighted_sum(counts@, cost),
        r <= counts.len() * 0x200_0000_0000_0000_0000_0000_0000,
{
    let mut acc: u128 = 0;
    let mut i: usize = 0;
    while i < counts.len()
        invariant
            counts.len() == costs.len(),
            counts.len() <= 1024,
            forall|i: int| 0 <= i < costs.len() ==> #[trigger] costs@[i] == cost(i) && costs@[i] < 0x200_0000_0000,
            i <= counts.len(),
            acc == weighted_sum(counts@.take(i as int), cost),
            acc <= i * 0x200_0000_0000_0000_0000_0000_0000,
        decreases counts.len() - i,
    {
        assert(counts@.take(i + 1).drop_last() == counts@.take(i as int));
        let c = counts[i] as u128;
        let k = costs[i] as u128;
        assert(c * k <= 0x200_0000_0000_0000_0000_0000_0000) by (nonlinear_arith)
            requires
                c < 0x1_0000_0000_0000_0000,
                k < 0x200_0000_0000,
        ;
        acc = acc + c * k;
        i = i + 1;
    }
    assert(counts@.take(counts.len() as int) == counts@);
    acc
}

impl SlayerData {
    pub open spec fn wf(&self) -> bool {
        data_wf(self@)
    }

    /// Game time the run has taken, in milliseconds.
    pub fn time_spent(&self) -> (r: u128)
        requires
            self.wf(),
        ensures
            r == self@.time_ms(),
    {
        let n = MASTER_COUNT * MONSTER_COUNT;
        let mut master_travel: Vec<u64> = Vec::new();
        let mut monster_travel: Vec<u64> = Vec::new();
        let mut i: usize = 0;
        while i < n
            invariant
                n == MASTER_COUNT * MONSTER_COUNT,
                i <= n,
                master_travel.len() == i,
                monster_travel.len() == i,
                forall|j: int| 0 <= j < i ==> #[trigger] master_travel@[j] == pair_master_travel(j) && master_travel@[j] < 0x200_0000_0000,
                forall|j: int| 0 <= j < i ==> #[trigger] monster_travel@[j] == pair_monster_travel(j) && monster_travel@[j] < 0x200_0000_0000,
            decreases n - i,
        {
            let master = SlayerMaster::from_index(i / MONSTER_COUNT);
            let monster = Monster::from_index(i % MONSTER_COUNT).unwrap();
            master_travel.push(master.travel_time());
            monster_travel.push(monster.cost_data().travel_time());
            i = i + 1;
        }
        let mut kill_times: Vec<u64> = Vec::new();
        let mut j: usize = 0;
        while j < MONSTER_COUNT
            invariant
                j <= MONSTER_COUNT,
                kill_times.len() == j,
                forall|k: int| 0 <= k < j ==> #[trigger] kill_times@[k] == kill_time(k) && kill_times@[k] < 0x200_0000_0000,
            decreases MONSTER_COUNT - j,
        {
            let monster = Monster::from_index(j).unwrap();
            kill_times.push(monster.cost_data().time_per_kill_ms as u64);
            j = j + 1;
        }
        let started = weighted_total(&self.total_tasks_started, &master_travel, Ghost(|i: int| pair_master_travel(i)));
        let done = weighted_total(&self.total_tasks_done, &monster_travel, Ghost(|i: int| pair_monster_travel(i)));
        let killing = weighted_total(&self.total_kills, &kill_times, Ghost(|i: int| kill_time(i)));
        started + done + killing + (STORE_TASK_TIME_MS as u128) * (self.num_stored_tasks as u128)
            + (UNSTORE_TASK_TIME_MS as u128) * (self.num_unstored_tasks as u128)
            + self.supplies_used.time_to_gather()
    }

    /// Number of tasks started over the run.
    pub fn tasks_started(&self) -> (r: u128)
        requires
            self.wf(),
        ensures
            r == self@.tasks_started_total(),
    {
        let ones = vec_of(self.total_tasks_started.len());
        weighted_total(&self.total_tasks_started, &ones, Ghost(|i: int| 1))
    }
}

fn vec_of(n: usize) -> (r: Vec<u64>)
    ensures
        r@ == Seq::new(n as nat, |i: int| 1u64),
{
    let mut v: Vec<u64> = Vec::new();
    let mut i: usize = 0;
    while i < n
        invariant
            i <= n,
            v@ == Seq::new(i as nat, |k: int| 1u64),
        decreases n - i,
    {
        v.push(1);
        i = i + 1;
        assert(v@ =~= Seq::new(i as nat, |k: int| 1u64));
    }
    v
}

} // verus!

verus! {

/// Multiplier of the completion bonus at a given streak: the highest tier
/// whose modulus divides the streak.
pub open spec fn streak_multiplier(streak: u32) -> nat {
    if streak % 1000 == 0 {
        50
    } else if streak % 250 == 0 {
        35
    } else if streak % 100 == 0 {
        25
    } else if streak % 50 == 0 {
        15
    } else if streak % 10 == 0 {
        5
    } else {
        1
    }
}

/// Points for completing a task of `master` that brings the streak to
/// `streak`: nothing before the fifth task in a row.
pub open spec fn point_bonus(streak: u32, master: SlayerMaster, era: WorldState) -> nat {
    if streak >= 5 {
        streak_multiplier(streak) * master_points(master, era)
    } else {
        0
    }
}

/// The bracelet charges that a tally spent.
pub open spec fn bracelet_supplies(t: KillTally) -> Supplies {
    Supplies {
        expeditious_bracelet_charges: t.expeditious_charges,
        bracelet_of_slaughter_charges: t.slaughter_charges,
        ..no_supplies()
    }
}

/// Whether `t` is a task that entry `a` of `master` can give.
pub open spec fn task_from(a: crate::catalog::Assignment, master: SlayerMaster, t: Task) -> bool {
    &&& t.monster == a.monster
    &&& t.master == master
    &&& a.amount_min <= t.amount <= a.amount_max
}

/// Whether Turael would give `monster` to the player; such a task cannot be dropped at him.
pub open spec fn turael_offers(catalog: &Catalog, player: &PlayerState, monster: Monster) -> bool {
    exists|j: int|
        0 <= j < catalog.turael@.len() && (#[trigger] catalog.turael@[j]).monster == monster
            && player.receives(catalog, catalog.turael@[j])
}

/// The task slot, the one-deep storage slot, points, streak and counters.
pub struct SlayerStateView {
    pub points: u32,
    pub task_streak: u32,
    pub task_state: TaskState,
    pub stored_task: Option<Task>,
    pub data: SlayerDataView,
}

impl SlayerStateView {
    /// After storing the active task.
    pub open spec fn after_store(self) -> SlayerStateView {
        let t = self.task_state->Active_0;
        SlayerStateView {
            task_state: TaskState::Completed(t.monster),
            stored_task: Some(t),
            data: SlayerDataView {
                num_stored_tasks: sat_add(self.data.num_stored_tasks, 1),
                ..self.data
            },
            ..self
        }
    }

    /// After taking the stored task back.
    pub open spec fn after_unstore(self) -> SlayerStateView {
        SlayerStateView {
            task_state: TaskState::Active(self.stored_task->Some_0),
            stored_task: None,
            data: SlayerDataView {
                num_unstored_tasks: sat_add(self.data.num_unstored_tasks, 1),
                ..self.data
            },
            ..self
        }
    }

    /// After paying points to drop the active task.
    pub open spec fn after_skip(self) -> SlayerStateView {
        let points = (self.points - SKIP_COST) as u32;
        SlayerStateView {
            points,
            task_state: TaskState::Completed(self.task_state.monster()),
            data: SlayerDataView {
                min_points: if points < self.data.min_points {
                    points as u64
                } else {
                    self.data.min_points
                },
                ..self.data
            },
            ..self
        }
    }

    /// After `master` hands out `t`; a task that was still active is
    /// dropped and the streak restarts.
    pub open spec fn after_assign(self, master: SlayerMaster, t: Task) -> SlayerStateView {
        let i = pair_index(master, t.monster);
        SlayerStateView {
            task_streak: if self.task_state is Active {
                0
            } else {
                self.task_streak
            },
            task_state: TaskState::Active(t),
            data: SlayerDataView {
                tasks_started: self.data.tasks_started.update(i, sat_add(self.data.tasks_started[i], 1)),
                supplies_used: self.data.supplies_used.plus(crate::costs::supplies_of(Some(master.travel_item()))),
                ..self.data
            },
            ..self
        }
    }

    /// After finishing the active task with the kills of `tally`.
    pub open spec fn after_complete(self, era: WorldState, tally: KillTally) -> SlayerStateView {
        let t = self.task_state->Active_0;
        let streak = sat_add32(self.task_streak, 1);
        let bonus = point_bonus(streak, t.master, era);
        let points = sat_add32(self.points, bonus as int);
        let done = pair_index(t.master, t.monster);
        let k = t.monster.ordinal();
        SlayerStateView {
            points,
            task_streak: streak,
            task_state: TaskState::Completed(t.monster),
            stored_task: self.stored_task,
            data: SlayerDataView {
                total_points: sat_add(self.data.total_points, bonus as u64),
                max_points: if streak >= 5 && points > self.data.max_points {
                    points as u64
                } else {
                    self.data.max_points
                },
                tasks_done: self.data.tasks_done.update(done, sat_add(self.data.tasks_done[done], 1)),
                kills: self.data.kills.update(k, sat_add(self.data.kills[k], tally.kills)),
                supplies_used: self.data.supplies_used.plus(
                    costs_or_fallback(t.monster).travel_supplies,
                ).plus(bracelet_supplies(tally)),
                drops: self.data.drops.plus(tally.drops),
                ..self.data
            },
        }
    }
}

/// Experience after gaining `gain`, saturating at `u32::MAX`.
pub open spec fn exp_after(exp: u32, gain: u128) -> u32 {
    if exp + gain > u32::MAX {
        u32::MAX
    } else {
        (exp + gain) as u32
    }
}

/// A character's task-related state within one run.
#[derive(Clone, Debug)]
pub struct SlayerState {
    pub points: u32,
    pub task_streak: u32,
    pub task_state: TaskState,
    pub stored_task: Option<Task>,
    pub slayer_data: SlayerData,
}

impl View for SlayerState {
    type V = SlayerStateView;

    open spec fn view(&self) -> SlayerStateView {
        SlayerStateView {
            points: self.points,
            task_streak: self.task_streak,
            task_state: self.task_state,
            stored_task: self.stored_task,
            data: self.slayer_data@,
        }
    }
}

impl SlayerState {
    pub open spec fn wf(&self) -> bool {
        data_wf(self.slayer_data@)
    }

    /// Whether `master` may be asked for a new task now: a quest-gated
    /// master needs its quest; a task still active may only be dropped at
    /// Turael, and only if Turael would not give that creature; and some
    /// eligible entry must have a positive weight.
    pub open spec fn assign_allowed(&self, catalog: &Catalog, master: SlayerMaster, player: &PlayerState) -> bool {
        &&& master == SlayerMaster::Spria ==> player.has_quest(Quest::PorcineOfInterest)
        &&& master == SlayerMaster::Chaeldar ==> player.has_quest(Quest::LostCity)
        &&& self.task_state matches TaskState::Active(t) ==> master == SlayerMaster::Turael
            && !turael_offers(catalog, player, t.monster)
        &&& total_weight(master.candidates(catalog, player, self.task_state.monster())) > 0
    }

    /// A fresh state with the given points, streak and task.
    pub fn new(points: u32, task_streak: u32, task_state: TaskState) -> (r: SlayerState)
        ensures
            r.wf(),
            r@ == (SlayerStateView { points, task_streak, task_state, stored_task: None, data: fresh_data() }),
    {
        SlayerState { points, task_streak, task_state, stored_task: None, slayer_data: SlayerData::default() }
    }

    /// Whether Turael would give `monster` to the player.
    pub fn turael_would_assign(catalog: &Catalog, player: &PlayerState, monster: Monster) -> (r: bool)
        requires
            catalog.wf(),
        ensures
            r == turael_offers(catalog, player, monster),
    {
        let list = &catalog.turael;
        let mut i: usize = 0;
        while i < list.len()
            invariant
                catalog.wf(),
                list == &catalog.turael,
                i <= list.len(),
                forall|j: int| 0 <= j < i ==> !((#[trigger] list@[j]).monster == monster && player.receives(catalog, list@[j])),
            decreases list.len() - i,
        {
            if list[i].monster == monster && player.can_receive_assignment(catalog, &list[i]) {
                return true;
            }
            i = i + 1;
        }
        false
    }

    /// Whether `new_assignment` may be called with `master` now.
    pub fn may_request(&self, catalog: &Catalog, master: SlayerMaster, player: &PlayerState) -> (r: bool)
        requires
            catalog.wf(),
        ensures
            r == self.assign_allowed(catalog, master, player),
    {
        match master {
            SlayerMaster::Spria => {
                if !player.quest_done(Quest::PorcineOfInterest) {
                    return false;
                }
            },
            SlayerMaster::Chaeldar => {
                if !player.quest_done(Quest::LostCity) {
                    return false;
                }
            },
            _ => {},
        }
        let last = match self.task_state {
            TaskState::Active(t) => {
                if master != SlayerMaster::Turael || SlayerState::turael_would_assign(catalog, player, t.monster) {
                    return false;
                }
                t.monster
            },
            TaskState::Completed(m) => m,
        };
        master.total_candidate_weight(catalog, player, last) > 0
    }

    /// Makes `t`, handed out by `master`, the active task, charging the
    /// travel to the master; an active task is dropped and the streak restarts.
    pub fn begin_task(&mut self, master: SlayerMaster, t: Task)
        requires
            old(self).wf(),
        ensures
            final(self).wf(),
            final(self)@ == old(self)@.after_assign(master, t),
    {
        if let TaskState::Active(_) = self.task_state {
            self.task_streak = 0;
        }
        bump(&mut self.slayer_data.total_tasks_started, pair_position(master, t.monster), 1);
        self.slayer_data.supplies_used = self.slayer_data.supplies_used.add(master.travel_cost());
        self.task_state = TaskState::Active(t);
    }

    /// Asks `master` for a new task: draws an eligible entry with chance
    /// proportional to its weight, then an amount uniformly in its range.
    pub fn new_assignment(&mut self, rng: &mut SmallRng, catalog: &Catalog, master: SlayerMaster, player: &PlayerState)
        requires
            old(self).wf(),
            catalog.wf(),
            old(self).assign_allowed(catalog, master, player),
        ensures
            final(self).wf(),
            ({
                let cands = master.candidates(catalog, player, old(self).task_state.monster());
                exists|d: int, t: Task|
                    0 <= d < total_weight(cands) && task_from(cands[selected(cands, d)], master, t)
                        && final(self)@ == old(self)@.after_assign(master, t)
            }),
    {
        let last = match self.task_state {
            TaskState::Active(t) => t.monster,
            TaskState::Completed(m) => m,
        };
        let total = master.total_candidate_weight(catalog, player, last);
        let draw = random_in(rng, 0, total - 1);
        let a = master.assignment_for_draw(catalog, player, last, draw).unwrap();
        let ghost cands = master.candidates(catalog, player, last);
        proof {
            let list = catalog.offerings(master);
            assert(crate::catalog::list_wf(list));
            crate::sampler::lemma_candidates_members(list, catalog, player, last);
            crate::sampler::lemma_sampler_exact(cands, 0);
            assert(cands.contains(a));
            assert(list.contains(a));
        }
        let amount = random_in(rng, a.amount_min, a.amount_max);
        let t = Task { monster: a.monster, master, amount };
        self.begin_task(master, t);
        assert(task_from(cands[selected(cands, draw as int)], master, t));
    }

    /// Stores the active task, which leaves the live slot `Completed` with
    /// its creature.
    pub fn store_task(&mut self, player: &PlayerState)
        requires
            old(self).wf(),
            player.storage_unlocked,
            old(self).task_state is Active,
            old(self).stored_task is None,
        ensures
            final(self).wf(),
            final(self)@ == old(self)@.after_store(),
    {
        if let TaskState::Active(t) = self.task_state {
            self.stored_task = Some(t);
            self.task_state = TaskState::Completed(t.monster);
            self.slayer_data.num_stored_tasks = self.slayer_data.num_stored_tasks.saturating_add(1);
        }
    }

    /// Makes the stored task active again.
    pub fn unstore_task(&mut self)
        requires
            old(self).wf(),
            old(self).stored_task is Some,
            old(self).task_state is Completed,
        ensures
            final(self).wf(),
            final(self)@ == old(self)@.after_unstore(),
    {
        if let Some(t) = self.stored_task {
            self.task_state = TaskState::Active(t);
            self.stored_task = None;
            self.slayer_data.num_unstored_tasks = self.slayer_data.num_unstored_tasks.saturating_add(1);
        }
    }

    /// Drops the active task for `SKIP_COST` points.
    pub fn point_skip(&mut self)
        requires
            old(self).wf(),
            old(self).task_state is Active,
            old(self).points >= SKIP_COST,
        ensures
            final(self).wf(),
            final(self)@ == old(self)@.after_skip(),
    {
        if let TaskState::Active(t) = self.task_state {
            self.task_state = TaskState::Completed(t.monster);
        }
        self.points = self.points - SKIP_COST;
        if (self.points as u64) < self.slayer_data.min_points {
            self.slayer_data.min_points = self.points as u64;
        }
    }

    /// Finishes the active task with the kills of `tally`: the streak grows,
    /// experience and kills are added, and from the fifth task in a row the
    /// master's points times the streak multiplier are awarded.
    pub fn complete_with_tally(&mut self, catalog: &Catalog, player: &mut PlayerState, tally: KillTally)
        requires
            old(self).wf(),
            old(self).task_state is Active,
            catalog.wf(),
        ensures
            final(self).wf(),
            final(self)@ == old(self)@.after_complete(catalog.era, tally),
            final(player).wf(catalog),
            final(player).slayer_exp == exp_after(old(player).slayer_exp, tally.exp),
            final(player).quests_done@ == old(player).quests_done@,
            final(player).storage_unlocked == old(player).storage_unlocked,
    {
        let t = match self.task_state {
            TaskState::Active(t) => t,
            TaskState::Completed(_) => { return; },
        };
        self.task_streak = self.task_streak.saturating_add(1);
        bump(&mut self.slayer_data.total_tasks_done, pair_position(t.master, t.monster), 1);
        let data = t.monster.cost_data();
        self.slayer_data.supplies_used = self.slayer_data.supplies_used.add(data.travel_supplies);
        let bracelets = Supplies {
            expeditious_bracelet_charges: tally.expeditious_charges,
            bracelet_of_slaughter_charges: tally.slaughter_charges,
            ..Supplies::default()
        };
        self.slayer_data.supplies_used = self.slayer_data.supplies_used.add(bracelets);
        self.slayer_data.drops = self.slayer_data.drops.add(tally.drops);
        bump(&mut self.slayer_data.total_kills, t.monster.index(), tally.kills);
        player.slayer_exp = if tally.exp > (u32::MAX - player.slayer_exp) as u128 {
            u32::MAX
        } else {
            player.slayer_exp + tally.exp as u32
        };
        player.slayer_level = catalog.level_for_exp(player.slayer_exp);
        if self.task_streak >= 5 {
            let s = self.task_streak;
            let multiplier: u32 = if s % 1000 == 0 {
                50
            } else if s % 250 == 0 {
                35
            } else if s % 100 == 0 {
                25
            } else if s % 50 == 0 {
                15
            } else if s % 10 == 0 {
                5
            } else {
                1
            };
            let awarded = t.master.slayer_points(catalog.era) * multiplier;
            self.points = self.points.saturating_add(awarded);
            self.slayer_data.total_points = self.slayer_data.total_points.saturating_add(awarded as u64);
            if self.points as u64 > self.slayer_data.max_points {
                self.slayer_data.max_points = self.points as u64;
            }
        }
        self.task_state = TaskState::Completed(t.monster);
    }

    /// Finishes the active task: kill by kill where a superior or a bracelet
    /// applies to the creature, else all kills in one step.
    pub fn complete_assignment(&mut self, rng: &mut SmallRng, catalog: &Catalog, player: &mut PlayerState)
        requires
            old(self).wf(),
            old(self).task_state is Active,
            catalog.wf(),
        ensures
            final(self).wf(),
            final(player).wf(catalog),
            final(player).quests_done@ == old(player).quests_done@,
            final(player).storage_unlocked == old(player).storage_unlocked,
            ({
                let t = old(self).task_state->Active_0;
                let data = costs_or_fallback(t.monster);
                let e = catalog.info(t.monster).slayer_exp;
                exists|tally: KillTally|
                    crate::kills::possible_tally(data, t.amount, e, tally)
                        && final(self)@ == old(self)@.after_complete(catalog.era, tally)
                        && final(player).slayer_exp == exp_after(old(player).slayer_exp, tally.exp)
            }),
            ({
                let t = old(self).task_state->Active_0;
                let e = catalog.info(t.monster).slayer_exp;
                !costs_or_fallback(t.monster).per_kill() ==> final(self)@ == old(self)@.after_complete(
                    catalog.era,
                    crate::kills::batch_tally(t.amount, e),
                ) && final(player).slayer_exp == exp_after(old(player).slayer_exp, (t.amount * e) as u128)
            }),
    {
        let t = match self.task_state {
            TaskState::Active(t) => t,
            TaskState::Completed(_) => { return; },
        };
        let data = t.monster.cost_data();
        let e = catalog.monster_info(t.monster).slayer_exp;
        let tally = if data.use_bracelet_of_slaughter || data.use_expeditious_bracelet
            || data.superior_unique_drop_rate.is_some() {
            run_kills(rng, &data, t.amount, e)
        } else {
            let b = batch_kills(t.amount, e);
            assert(0 <= (t.amount as int) * (e as int) <= 0xFFFF_FFFF * 0xFFFF_FFFF) by (nonlinear_arith)
                requires
                    t.amount <= 0xFFFF_FFFF,
                    e <= 0xFFFF_FFFF,
            ;
            assert(b.exp == b.kills * e) by (nonlinear_arith)
                requires
                    b.kills == t.amount,
                    b.exp == t.amount * e,
            ;
            b
        };
        assert(crate::kills::possible_tally(data, t.amount, e, tally));
        self.complete_with_tally(catalog, player, tally);
    }

    /// Unlocks task storage for `STORAGE_UNLOCK_COST` points.
    pub fn unlock_task_storage(&mut self, player: &mut PlayerState)
        requires
            !old(player).storage_unlocked,
            old(self).points >= STORAGE_UNLOCK_COST,
        ensures
            final(self)@ == (SlayerStateView { points: (old(self).points - STORAGE_UNLOCK_COST) as u32, ..old(self)@ }),
            final(player).storage_unlocked,
            final(player).slayer_exp == old(player).slayer_exp,
            final(player).slayer_level == old(player).slayer_level,
            final(player).quests_done@ == old(player).quests_done@,
    {
        player.storage_unlocked = true;
        self.points = self.points - STORAGE_UNLOCK_COST;
    }
}

/// Storing the active task and taking it straight back restores the task
/// slot and the storage slot exactly; only the two storage-move counters
/// (and with them the time spent) change.
pub proof fn lemma_store_then_unstore(s: SlayerStateView)
    requires
        s.task_state is Active,
        s.stored_task is None,
    ensures
        s.after_store().stored_task == Some(s.task_state->Active_0),
        s.after_store().after_unstore().task_state == s.task_state,
        s.after_store().after_unstore() == (SlayerStateView {
            data: SlayerDataView {
                num_stored_tasks: sat_add(s.data.num_stored_tasks, 1),
                num_unstored_tasks: sat_add(s.data.num_unstored_tasks, 1),
                ..s.data
            },
            ..s
        }),
        s.data.num_stored_tasks < u64::MAX && s.data.num_unstored_tasks < u64::MAX
            ==> s.after_store().after_unstore().data.time_ms() == s.data.time_ms() + STORE_TASK_TIME_MS + UNSTORE_TASK_TIME_MS,
{
}

/// A point-skip costs exactly `SKIP_COST` points, which it requires, so the
/// points never go below zero; the task just skipped is the one finished.
pub proof fn lemma_skip_never_negative(s: SlayerStateView)
    requires
        s.task_state is Active,
        s.points >= SKIP_COST,
    ensures
        s.after_skip().points == s.points - SKIP_COST >= 0,
        s.after_skip().task_state == TaskState::Completed(s.task_state.monster()),
{
}

/// Completing a task that brings the streak to five or more adds the
/// master's points times the multiplier of the highest tier whose modulus
/// divides the streak (1000, 250, 100, 50, 10, else 1), to the points and to
/// the points earned; the highest points seen follow. Below five nothing is
/// added. Stated where the counters do not reach their maximum.
pub proof fn lemma_completion_bonus(s: SlayerStateView, era: WorldState, tally: KillTally)
    requires
        s.task_state is Active,
        s.task_streak < u32::MAX,
        s.points + 500 <= u32::MAX,
        s.data.total_points + 500 <= u64::MAX,
    ensures
        ({
            let t = s.task_state->Active_0;
            let k = (s.task_streak + 1) as u32;
            let after = s.after_complete(era, tally);
            let bonus = if k >= 5 { streak_multiplier(k) * master_points(t.master, era) } else { 0 };
            &&& after.task_streak == k
            &&& after.points == s.points + bonus
            &&& after.data.total_points == s.data.total_points + bonus
            &&& k >= 5 ==> after.data.max_points == if after.points > s.data.max_points {
                after.points as u64
            } else {
                s.data.max_points
            }
            &&& k < 5 ==> after.points == s.points && after.data.max_points == s.data.max_points
        }),
{
    let t = s.task_state->Active_0;
    let k = (s.task_streak + 1) as u32;
    assert(streak_multiplier(k) <= 50);
    assert(master_points(t.master, era) <= 10);
    assert(streak_multiplier(k) * master_points(t.master, era) <= 500) by (nonlinear_arith)
        requires
            streak_multiplier(k) <= 50,
            master_points(t.master, era) <= 10,
    ;
}

/// Taking the stored task back makes exactly the stored task active and
/// empties the storage; only the unstore counter changes besides.
pub proof fn lemma_unstore_exact(s: SlayerStateView)
    requires
        s.stored_task is Some,
        s.task_state is Completed,
        s.data.num_unstored_tasks < u64::MAX,
    ensures
        s.after_unstore().task_state == TaskState::Active(s.stored_task->Some_0),
        s.after_unstore().stored_task is None,
        s.after_unstore().data.num_unstored_tasks == s.data.num_unstored_tasks + 1,
        s.after_unstore() == (SlayerStateView {
            task_state: TaskState::Active(s.stored_task->Some_0),
            stored_task: None,
            data: SlayerDataView { num_unstored_tasks: (s.data.num_unstored_tasks + 1) as u64, ..s.data },
            ..s
        }),
{
}

} // verus!
