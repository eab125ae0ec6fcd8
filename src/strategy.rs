use vstd::prelude::*;

use crate::catalog::{offers, Catalog, Monster, SlayerMaster};
use crate::costs::SlayerDrops;
use crate::player::PlayerState;
use crate::catalog::Quest;
use crate::state::{turael_offers, SlayerState, SlayerStateView, Task, TaskState, SKIP_COST, STORAGE_UNLOCK_COST};

verus! {

/// Points at which a run of the lock-avoiding policy counts as a success.
pub const TARGET_POINTS: u32 = 1000;

/// Points from which the superiors policy unlocks task storage.
pub const UNLOCK_AT_POINTS: u32 = 620;

/// Points below which the superiors policy goes back to accumulating.
pub const RESUME_ACCUMULATING_BELOW: u32 = 500;

/// One step a policy can take.
#[derive(Clone, Copy, PartialEq, Eq, Structural, Debug)]
pub enum SimulationAction {
    CompleteTask,
    PointSkip,
    NewAssignment(SlayerMaster),
    UnlockTaskStorage,
    StoreTask,
    UnstoreTask,
}

pub open spec fn killable(catalog: &Catalog, m: Monster) -> bool {
    catalog.info(m).melee_killable
}

pub open spec fn turael_assigns(catalog: &Catalog, m: Monster) -> bool {
    offers(catalog.offerings(SlayerMaster::Turael), m)
}

/// The run is stuck: the active task cannot be killed, cannot be paid away,
/// cannot be dropped at Turael since Turael gives it too, and cannot be put
/// into (an unlocked, empty) storage.
pub open spec fn locked(s: SlayerStateView, player: &PlayerState, catalog: &Catalog) -> bool {
    &&& s.task_state matches TaskState::Active(t)
    &&& !killable(catalog, t.monster)
    &&& s.points < SKIP_COST
    &&& turael_assigns(catalog, t.monster)
    &&& (!player.storage_unlocked || s.stored_task is Some)
}

/// What the lock-avoiding policy decides about ending the run.
pub open spec fn lock_verdict(s: SlayerStateView, player: &PlayerState, catalog: &Catalog) -> Option<bool> {
    if locked(s, player, catalog) {
        Some(false)
    } else if s.task_state is Completed && s.points >= TARGET_POINTS {
        Some(true)
    } else {
        None
    }
}

/// The lock-avoiding policy's next step, `None` where it has none (an
/// unkillable task that Turael also gives, and too few points to skip it).
pub open spec fn lock_action(s: SlayerStateView, catalog: &Catalog) -> Option<SimulationAction> {
    match s.task_state {
        TaskState::Active(t) => if killable(catalog, t.monster) {
            Some(SimulationAction::CompleteTask)
        } else if turael_assigns(catalog, t.monster) {
            if s.points >= SKIP_COST {
                Some(SimulationAction::PointSkip)
            } else {
                None
            }
        } else {
            Some(SimulationAction::NewAssignment(SlayerMaster::Turael))
        },
        TaskState::Completed(_) => {
            let next = s.task_streak + 1;
            if next >= 5 && next % 10 <= 4 {
                Some(SimulationAction::NewAssignment(SlayerMaster::Vannaka))
            } else {
                Some(SimulationAction::NewAssignment(SlayerMaster::Spria))
            }
        },
    }
}

/// Whether the task rules allow `action` now, apart from the master having
/// an eligible entry of positive weight, which depends on the catalog.
pub open spec fn rule_allowed(s: SlayerStateView, player: &PlayerState, catalog: &Catalog, action: SimulationAction) -> bool {
    match action {
        SimulationAction::CompleteTask => s.task_state is Active,
        SimulationAction::PointSkip => s.task_state is Active && s.points >= SKIP_COST,
        SimulationAction::NewAssignment(m) => {
            &&& m == SlayerMaster::Spria ==> player.has_quest(Quest::PorcineOfInterest)
            &&& m == SlayerMaster::Chaeldar ==> player.has_quest(Quest::LostCity)
            &&& s.task_state matches TaskState::Active(t) ==> m == SlayerMaster::Turael && !turael_offers(
                catalog,
                player,
                t.monster,
            )
        },
        SimulationAction::UnlockTaskStorage => !player.storage_unlocked && s.points >= STORAGE_UNLOCK_COST,
        SimulationAction::StoreTask => player.storage_unlocked && s.task_state is Active && s.stored_task is None,
        SimulationAction::UnstoreTask => s.stored_task is Some && s.task_state is Completed,
    }
}

/// Keeps the character from being locked on a task it cannot do: kills what
/// it can, drops at Turael what Turael does not give, pays to skip the rest,
/// and takes Vannaka tasks only where the streak bonus makes them pay.
#[derive(Clone, Copy, PartialEq, Eq, Structural, Debug)]
pub struct MinimizeSlayerLockStrategy {}

impl MinimizeSlayerLockStrategy {
    pub fn should_terminate(&self, s: &SlayerState, player: &PlayerState, catalog: &Catalog) -> (r: Option<bool>)
        requires
            catalog.wf(),
        ensures
            r == lock_verdict(s@, player, catalog),
    {
        if is_locked(s, player, catalog) {
            Some(false)
        } else {
            match s.task_state {
                TaskState::Completed(_) => if s.points >= TARGET_POINTS {
                    Some(true)
                } else {
                    None
                },
                TaskState::Active(_) => None,
            }
        }
    }

    pub fn select_action(&self, s: &SlayerState, catalog: &Catalog) -> (r: Option<SimulationAction>)
        requires
            catalog.wf(),
        ensures
            r == lock_action(s@, catalog),
    {
        match s.task_state {
            TaskState::Active(t) => {
                if catalog.monster_info(t.monster).melee_killable {
                    Some(SimulationAction::CompleteTask)
                } else if SlayerMaster::Turael.can_assign(catalog, t.monster) {
                    if s.points >= SKIP_COST {
                        Some(SimulationAction::PointSkip)
                    } else {
                        None
                    }
                } else {
                    Some(SimulationAction::NewAssignment(SlayerMaster::Turael))
                }
            },
            TaskState::Completed(_) => {
                let next = s.task_streak as u64 + 1;
                if next >= 5 && next % 10 <= 4 {
                    Some(SimulationAction::NewAssignment(SlayerMaster::Vannaka))
                } else {
                    Some(SimulationAction::NewAssignment(SlayerMaster::Spria))
                }
            },
        }
    }
}

/// Every step of the lock-avoiding policy is allowed by the task rules,
/// given the quest that Spria needs.
pub proof fn lemma_lock_action_legal(s: SlayerStateView, player: &PlayerState, catalog: &Catalog)
    ensures
        player.has_quest(Quest::PorcineOfInterest) ==> (lock_action(s, catalog) matches Some(a) ==> rule_allowed(
            s,
            player,
            catalog,
            a,
        )),
{
    if let TaskState::Active(t) = s.task_state {
        if !turael_assigns(catalog, t.monster) {
            assert(!turael_offers(catalog, player, t.monster)) by {
                if turael_offers(catalog, player, t.monster) {
                    let j = choose|j: int|
                        0 <= j < catalog.turael@.len() && (#[trigger] catalog.turael@[j]).monster == t.monster
                            && player.receives(catalog, catalog.turael@[j]);
                    assert(catalog.offerings(SlayerMaster::Turael)[j].monster == t.monster);
                }
            }
        }
    }
}

fn is_locked(s: &SlayerState, player: &PlayerState, catalog: &Catalog) -> (r: bool)
    requires
        catalog.wf(),
    ensures
        r == locked(s@, player, catalog),
{
    match s.task_state {
        TaskState::Active(t) => !catalog.monster_info(t.monster).melee_killable && s.points < SKIP_COST
            && SlayerMaster::Turael.can_assign(catalog, t.monster) && (!player.storage_unlocked
            || s.stored_task.is_some()),
        TaskState::Completed(_) => false,
    }
}

/// The two sub-modes of the superiors policy.
#[derive(Clone, Copy, PartialEq, Eq, Structural, Debug)]
pub enum SuperiorsStrategy {
    AccumulatePoints,
    GetSuperiors,
}

/// Vannaka tasks worth doing while accumulating points.
pub open spec fn vannaka_worth_points(m: Monster) -> bool {
    m == Monster::Ankous || m == Monster::Crocodiles || m == Monster::IceGiants || m == Monster::IceWarriors
        || m == Monster::HillGiants || m == Monster::Hobgoblins || m == Monster::Kalphite
        || m == Monster::MossGiants || m == Monster::Pyrefiends || m == Monster::Trolls
}

/// Vannaka tasks worth doing while hunting superiors.
pub open spec fn vannaka_worth_superiors(m: Monster) -> bool {
    m == Monster::Kalphite || m == Monster::Pyrefiends
}

/// The mode after looking at the points: switch to hunting superiors above
/// `TARGET_POINTS`, back to accumulating below `RESUME_ACCUMULATING_BELOW`.
pub open spec fn next_mode(mode: SuperiorsStrategy, points: u32) -> SuperiorsStrategy {
    if mode == SuperiorsStrategy::AccumulatePoints && points > TARGET_POINTS {
        SuperiorsStrategy::GetSuperiors
    } else if mode == SuperiorsStrategy::GetSuperiors && points < RESUME_ACCUMULATING_BELOW {
        SuperiorsStrategy::AccumulatePoints
    } else {
        mode
    }
}

/// Whether to take the stored task back before asking `next`: the task just
/// finished is one `next` could give again and is worth doing, while the
/// stored one is not worth doing and `next` gives it too.
pub open spec fn should_unstore(s: SlayerStateView, catalog: &Catalog, last: Monster, next: SlayerMaster) -> bool {
    &&& killable(catalog, last)
    &&& offers(catalog.offerings(next), last)
    &&& s.stored_task matches Some(st)
    &&& !killable(catalog, st.monster)
    &&& offers(catalog.offerings(next), st.monster)
}

/// Step for an active task that cannot be killed.
pub open spec fn unkillable_action(s: SlayerStateView, catalog: &Catalog, t: Task, accumulate: bool) -> Option<SimulationAction> {
    if turael_assigns(catalog, t.monster) {
        if s.stored_task is None {
            Some(SimulationAction::StoreTask)
        } else if s.points >= SKIP_COST {
            Some(SimulationAction::PointSkip)
        } else {
            None
        }
    } else if accumulate && s.points > 120 {
        Some(SimulationAction::PointSkip)
    } else {
        Some(SimulationAction::NewAssignment(SlayerMaster::Turael))
    }
}

/// The superiors policy's step in a given mode, once storage is unlocked.
pub open spec fn superiors_step(mode: SuperiorsStrategy, s: SlayerStateView, player: &PlayerState, catalog: &Catalog) -> Option<SimulationAction> {
    match s.task_state {
        TaskState::Active(t) => if !killable(catalog, t.monster) {
            unkillable_action(s, catalog, t, mode == SuperiorsStrategy::AccumulatePoints)
        } else if t.master != SlayerMaster::Vannaka {
            Some(SimulationAction::CompleteTask)
        } else if mode == SuperiorsStrategy::AccumulatePoints {
            if vannaka_worth_points(t.monster) {
                Some(SimulationAction::CompleteTask)
            } else if s.points >= 120 {
                Some(SimulationAction::PointSkip)
            } else if !turael_offers(catalog, player, t.monster) {
                Some(SimulationAction::NewAssignment(SlayerMaster::Turael))
            } else {
                Some(SimulationAction::CompleteTask)
            }
        } else if vannaka_worth_superiors(t.monster) {
            Some(SimulationAction::CompleteTask)
        } else if !turael_offers(catalog, player, t.monster) {
            Some(SimulationAction::NewAssignment(SlayerMaster::Turael))
        } else if s.points >= SKIP_COST {
            Some(SimulationAction::PointSkip)
        } else {
            Some(SimulationAction::CompleteTask)
        },
        TaskState::Completed(last) => {
            let next = if mode == SuperiorsStrategy::GetSuperiors || (s.task_streak + 1) % 10 == 0 {
                SlayerMaster::Vannaka
            } else {
                SlayerMaster::Turael
            };
            if should_unstore(s, catalog, last, next) {
                Some(SimulationAction::UnstoreTask)
            } else {
                Some(SimulationAction::NewAssignment(next))
            }
        },
    }
}

/// The superiors policy's step and its mode afterwards.
pub open spec fn superiors_action(mode: SuperiorsStrategy, s: SlayerStateView, player: &PlayerState, catalog: &Catalog) -> (SuperiorsStrategy, Option<SimulationAction>) {
    if !player.storage_unlocked {
        (mode, if s.points >= UNLOCK_AT_POINTS {
            Some(SimulationAction::UnlockTaskStorage)
        } else {
            lock_action(s, catalog)
        })
    } else {
        (next_mode(mode, s.points), superiors_step(next_mode(mode, s.points), s, player, catalog))
    }
}

/// What the superiors policy decides about ending the run.
pub open spec fn superiors_verdict(s: SlayerStateView, player: &PlayerState, catalog: &Catalog) -> Option<bool> {
    if s.data.drops.complete_set() {
        Some(true)
    } else if locked(s, player, catalog) {
        Some(false)
    } else {
        None
    }
}

impl SuperiorsStrategy {
    /// Ends the run once every superior unique has dropped, or when stuck.
    pub fn should_terminate(&self, s: &SlayerState, player: &PlayerState, catalog: &Catalog) -> (r: Option<bool>)
        requires
            catalog.wf(),
        ensures
            r == superiors_verdict(s@, player, catalog),
    {
        let d: &SlayerDrops = &s.slayer_data.drops;
        if d.dust_battlestaff > 0 && d.mist_battlestaff > 0 && d.imbued_heart > 0 && d.eternal_gem > 0 {
            Some(true)
        } else if is_locked(s, player, catalog) {
            Some(false)
        } else {
            None
        }
    }

    /// Before storage is unlocked: avoid getting locked and unlock it at
    /// `UNLOCK_AT_POINTS`. After: accumulate points on quick tasks, parking
    /// an unkillable task in storage, then above `TARGET_POINTS` hunt
    /// superiors on Vannaka tasks until the points fall below
    /// `RESUME_ACCUMULATING_BELOW`.
    pub fn select_action(&mut self, s: &SlayerState, player: &PlayerState, catalog: &Catalog) -> (r: Option<SimulationAction>)
        requires
            catalog.wf(),
        ensures
            (*final(self), r) == superiors_action(*old(self), s@, player, catalog),
            player.has_quest(Quest::PorcineOfInterest) ==> (r matches Some(a) ==> rule_allowed(s@, player, catalog, a)),
    {
        proof {
            lemma_lock_action_legal(s@, player, catalog);
        }
        if !player.storage_unlocked {
            if s.points >= UNLOCK_AT_POINTS {
                return Some(SimulationAction::UnlockTaskStorage);
            }
            return MinimizeSlayerLockStrategy {}.select_action(s, catalog);
        }
        if *self == SuperiorsStrategy::AccumulatePoints && s.points > TARGET_POINTS {
            *self = SuperiorsStrategy::GetSuperiors;
        } else if *self == SuperiorsStrategy::GetSuperiors && s.points < RESUME_ACCUMULATING_BELOW {
            *self = SuperiorsStrategy::AccumulatePoints;
        }
        let accumulate = *self == SuperiorsStrategy::AccumulatePoints;
        match s.task_state {
            TaskState::Active(t) => {
                if !catalog.monster_info(t.monster).melee_killable {
                    if SlayerMaster::Turael.can_assign(catalog, t.monster) {
                        if s.stored_task.is_none() {
                            Some(SimulationAction::StoreTask)
                        } else if s.points >= SKIP_COST {
                            Some(SimulationAction::PointSkip)
                        } else {
                            None
                        }
                    } else if accumulate && s.points > 120 {
                        Some(SimulationAction::PointSkip)
                    } else {
                        Some(SimulationAction::NewAssignment(SlayerMaster::Turael))
                    }
                } else if t.master != SlayerMaster::Vannaka {
                    Some(SimulationAction::CompleteTask)
                } else if accumulate {
                    if worth_for_points(t.monster) {
                        Some(SimulationAction::CompleteTask)
                    } else if s.points >= 120 {
                        Some(SimulationAction::PointSkip)
                    } else if !SlayerState::turael_would_assign(catalog, player, t.monster) {
                        Some(SimulationAction::NewAssignment(SlayerMaster::Turael))
                    } else {
                        Some(SimulationAction::CompleteTask)
                    }
                } else if t.monster == Monster::Kalphite || t.monster == Monster::Pyrefiends {
                    Some(SimulationAction::CompleteTask)
                } else if !SlayerState::turael_would_assign(catalog, player, t.monster) {
                    Some(SimulationAction::NewAssignment(SlayerMaster::Turael))
                } else if s.points >= SKIP_COST {
                    Some(SimulationAction::PointSkip)
                } else {
                    Some(SimulationAction::CompleteTask)
                }
            },
            TaskState::Completed(last) => {
                let next = if !accumulate || (s.task_streak as u64 + 1) % 10 == 0 {
                    SlayerMaster::Vannaka
                } else {
                    SlayerMaster::Turael
                };
                let unstore = match s.stored_task {
                    Some(st) => catalog.monster_info(last).melee_killable && next.can_assign(catalog, last)
                        && !catalog.monster_info(st.monster).melee_killable && next.can_assign(
                        catalog,
                        st.monster,
                    ),
                    None => false,
                };
                if unstore {
                    Some(SimulationAction::UnstoreTask)
                } else {
                    Some(SimulationAction::NewAssignment(next))
                }
            },
        }
    }
}

fn worth_for_points(m: Monster) -> (r: bool)
    ensures
        r == vannaka_worth_points(m),
{
    match m {
        Monster::Ankous | Monster::Crocodiles | Monster::IceGiants | Monster::IceWarriors | Monster::HillGiants
        | Monster::Hobgoblins | Monster::Kalphite | Monster::MossGiants | Monster::Pyrefiends | Monster::Trolls => true,
        _ => false,
    }
}

/// A decision policy: one of the closed set of strategies.
#[derive(Clone, Copy, PartialEq, Eq, Structural, Debug)]
pub enum Policy {
    MinimizeSlayerLock,
    Superiors(SuperiorsStrategy),
}

impl Policy {
    pub open spec fn verdict(self, s: SlayerStateView, player: &PlayerState, catalog: &Catalog) -> Option<bool> {
        match self {
            Policy::MinimizeSlayerLock => lock_verdict(s, player, catalog),
            Policy::Superiors(_) => superiors_verdict(s, player, catalog),
        }
    }

    /// The policy's next step in a given state.
    pub open spec fn action(self, s: SlayerStateView, player: &PlayerState, catalog: &Catalog) -> Option<SimulationAction> {
        match self {
            Policy::MinimizeSlayerLock => lock_action(s, catalog),
            Policy::Superiors(m) => superiors_action(m, s, player, catalog).1,
        }
    }

    /// `Some(true)` for a success, `Some(false)` for a stuck run, `None` to go on.
    pub fn should_terminate(&self, s: &SlayerState, player: &PlayerState, catalog: &Catalog) -> (r: Option<bool>)
        requires
            catalog.wf(),
        ensures
            r == self.verdict(s@, player, catalog),
    {
        match self {
            Policy::MinimizeSlayerLock => MinimizeSlayerLockStrategy {}.should_terminate(s, player, catalog),
            Policy::Superiors(m) => m.should_terminate(s, player, catalog),
        }
    }

    /// The next step, `None` where the policy has none.
    pub fn select_action(&mut self, s: &SlayerState, player: &PlayerState, catalog: &Catalog) -> (r: Option<SimulationAction>)
        requires
            catalog.wf(),
        ensures
            *old(self) == Policy::MinimizeSlayerLock ==> *final(self) == *old(self) && r == lock_action(s@, catalog),
            *old(self) matches Policy::Superiors(m) ==> ({
                let (m2, a) = superiors_action(m, s@, player, catalog);
                *final(self) == Policy::Superiors(m2) && r == a
            }),
            player.has_quest(Quest::PorcineOfInterest) ==> (r matches Some(a) ==> rule_allowed(s@, player, catalog, a)),
    {
        match self {
            Policy::MinimizeSlayerLock => {
                proof {
                    lemma_lock_action_legal(s@, player, catalog);
                }
                MinimizeSlayerLockStrategy {}.select_action(s, catalog)
            },
            Policy::Superiors(m) => {
                let mut mode = *m;
                let r = mode.select_action(s, player, catalog);
                *self = Policy::Superiors(mode);
                r
            },
        }
    }
}

} // verus!
