use rand::rngs::SmallRng;
use rand::SeedableRng;
use slayer_sim::catalog::{Assignment, Catalog, Monster, MonsterInfo, Quest, SlayerMaster, WorldState, MONSTER_COUNT};
use slayer_sim::costs::{Rate, SlayerDrops, Supplies};
use slayer_sim::driver::RunError;
use slayer_sim::kills::{batch_kills, kill_step, run_kills, KillRolls, KillTally};
use slayer_sim::player::PlayerState;
use slayer_sim::state::{pair_position, SlayerState, Task, TaskState};
use slayer_sim::strategy::SimulationAction;

fn entry(monster: Monster, min: u32, max: u32, quest: Option<Quest>, weight: u32) -> Assignment {
    Assignment { monster, amount_min: min, amount_max: max, quest_requirement: quest, weight }
}

fn test_catalog() -> Catalog {
    let mut monsters = Vec::new();
    for i in 0..MONSTER_COUNT {
        let m = Monster::from_index(i).unwrap();
        let info = match m {
            Monster::CaveCrawlers => MonsterInfo { slayer_req: 10, slayer_exp: 22, melee_killable: true },
            Monster::Hellhounds | Monster::Ghouls => {
                MonsterInfo { slayer_req: 1, slayer_exp: 116, melee_killable: false }
            }
            _ => MonsterInfo { slayer_req: 1, slayer_exp: 10, melee_killable: true },
        };
        monsters.push(info);
    }
    Catalog {
        era: WorldState::Limp2026,
        turael: vec![
            entry(Monster::Monkeys, 15, 30, None, 8),
            entry(Monster::Birds, 15, 30, None, 6),
            entry(Monster::Cows, 15, 30, None, 8),
            entry(Monster::Rats, 15, 30, None, 7),
            entry(Monster::CaveCrawlers, 15, 30, None, 8),
            entry(Monster::Bats, 15, 30, Some(Quest::LostCity), 7),
            entry(Monster::Ghouls, 15, 30, None, 5),
            entry(Monster::Dogs, 15, 30, None, 0),
        ],
        spria: vec![
            entry(Monster::Monkeys, 15, 30, None, 8),
            entry(Monster::Cows, 15, 30, None, 8),
            entry(Monster::Zombies, 15, 30, None, 7),
        ],
        vannaka: vec![
            entry(Monster::Hellhounds, 30, 60, None, 8),
            entry(Monster::Kalphite, 30, 60, None, 9),
            entry(Monster::Pyrefiends, 30, 60, None, 8),
            entry(Monster::Ghouls, 30, 60, None, 7),
            entry(Monster::Ankous, 30, 60, None, 7),
        ],
        chaeldar: vec![
            entry(Monster::Kalphite, 40, 80, None, 11),
            entry(Monster::CaveCrawlers, 40, 80, Some(Quest::LostCity), 6),
        ],
        monsters,
        level_thresholds: vec![0, 100, 200, 300, 400, 500, 600, 700, 800, 900],
    }
}

fn active(monster: Monster, master: SlayerMaster, amount: u32) -> TaskState {
    TaskState::Active(Task { monster, master, amount })
}

fn completed_bonus(streak_before: u32, master: SlayerMaster) -> u32 {
    let catalog = test_catalog();
    let mut player = PlayerState::new(&catalog, 0, vec![], false);
    let mut rng = SmallRng::seed_from_u64(1);
    let mut state = SlayerState::new(100, streak_before, active(Monster::Cows, master, 10));
    state.complete_assignment(&mut rng, &catalog, &mut player);
    state.points - 100
}

#[test]
fn point_skip_costs_thirty_and_tracks_minimum() {
    let mut state = SlayerState::new(45, 3, active(Monster::Cows, SlayerMaster::Turael, 10));
    state.point_skip();
    assert_eq!(state.points, 15);
    assert_eq!(state.task_state, TaskState::Completed(Monster::Cows));
    assert_eq!(state.slayer_data.min_points, 15);
    assert_eq!(state.task_streak, 3);
}

#[test]
fn skip_is_refused_below_its_cost() {
    let catalog = test_catalog();
    let mut player = PlayerState::new(&catalog, 0, vec![], false);
    let mut rng = SmallRng::seed_from_u64(1);
    let mut state = SlayerState::new(29, 3, active(Monster::Cows, SlayerMaster::Turael, 10));
    let r = state.apply(&mut rng, &catalog, &mut player, SimulationAction::PointSkip);
    assert_eq!(r, Err(RunError::IllegalAction(SimulationAction::PointSkip)));
    assert_eq!(state.points, 29);
    assert!(matches!(state.task_state, TaskState::Active(_)));
}

#[test]
fn no_bonus_before_fifth_task() {
    assert_eq!(completed_bonus(3, SlayerMaster::Vannaka), 0);
}

#[test]
fn bonus_tiers_follow_streak() {
    // Vannaka gives 8 points per task in this era.
    assert_eq!(completed_bonus(4, SlayerMaster::Vannaka), 8);
    assert_eq!(completed_bonus(9, SlayerMaster::Vannaka), 40);
    assert_eq!(completed_bonus(49, SlayerMaster::Vannaka), 120);
    assert_eq!(completed_bonus(99, SlayerMaster::Vannaka), 200);
    assert_eq!(completed_bonus(249, SlayerMaster::Vannaka), 280);
    assert_eq!(completed_bonus(999, SlayerMaster::Vannaka), 400);
    assert_eq!(completed_bonus(10, SlayerMaster::Chaeldar), 10);
    assert_eq!(completed_bonus(19, SlayerMaster::Chaeldar), 50);
    assert_eq!(completed_bonus(19, SlayerMaster::Turael), 0);
}

#[test]
fn master_points_depend_on_era() {
    assert_eq!(SlayerMaster::Vannaka.slayer_points(WorldState::Limp2024), 4);
    assert_eq!(SlayerMaster::Vannaka.slayer_points(WorldState::Limp2025), 4);
    assert_eq!(SlayerMaster::Vannaka.slayer_points(WorldState::Limp2026), 8);
    assert_eq!(SlayerMaster::Chaeldar.slayer_points(WorldState::Limp2024), 10);
    assert_eq!(SlayerMaster::Spria.slayer_points(WorldState::Limp2026), 0);
}

#[test]
fn completion_adds_kills_and_experience() {
    let catalog = test_catalog();
    let mut player = PlayerState::new(&catalog, 50, vec![], false);
    let mut rng = SmallRng::seed_from_u64(1);
    // Cows have no per-kill effects: 20 kills at 10 experience each.
    let mut state = SlayerState::new(0, 0, active(Monster::Cows, SlayerMaster::Turael, 20));
    state.complete_assignment(&mut rng, &catalog, &mut player);
    assert_eq!(player.slayer_exp, 250);
    assert_eq!(player.slayer_level(), 3);
    assert_eq!(state.slayer_data.total_kills[Monster::Cows.index()], 20);
    assert_eq!(state.slayer_data.total_tasks_done[pair_position(SlayerMaster::Turael, Monster::Cows)], 1);
    assert_eq!(state.task_streak, 1);
    assert_eq!(state.task_state, TaskState::Completed(Monster::Cows));
    // Cows cost a law rune to reach.
    assert_eq!(state.slayer_data.supplies_used.law_runes, 1);
}

#[test]
fn store_then_unstore_restores_the_task() {
    let catalog = test_catalog();
    let player = PlayerState::new(&catalog, 0, vec![], true);
    let task = Task { monster: Monster::Ghouls, master: SlayerMaster::Vannaka, amount: 42 };
    let mut state = SlayerState::new(10, 7, TaskState::Active(task));
    let before = state.slayer_data.time_spent();
    state.store_task(&player);
    assert_eq!(state.stored_task, Some(task));
    assert_eq!(state.task_state, TaskState::Completed(Monster::Ghouls));
    state.unstore_task();
    assert_eq!(state.task_state, TaskState::Active(task));
    assert_eq!(state.stored_task, None);
    assert_eq!(state.points, 10);
    assert_eq!(state.task_streak, 7);
    assert_eq!(state.slayer_data.num_stored_tasks, 1);
    assert_eq!(state.slayer_data.num_unstored_tasks, 1);
    assert_eq!(state.slayer_data.time_spent(), before + 6000);
}

#[test]
fn storing_needs_the_unlock() {
    let catalog = test_catalog();
    let mut player = PlayerState::new(&catalog, 0, vec![], false);
    let mut rng = SmallRng::seed_from_u64(1);
    let mut state = SlayerState::new(10, 7, active(Monster::Ghouls, SlayerMaster::Vannaka, 42));
    let r = state.apply(&mut rng, &catalog, &mut player, SimulationAction::StoreTask);
    assert_eq!(r, Err(RunError::IllegalAction(SimulationAction::StoreTask)));
    let r = state.apply(&mut rng, &catalog, &mut player, SimulationAction::UnstoreTask);
    assert_eq!(r, Err(RunError::IllegalAction(SimulationAction::UnstoreTask)));
}

#[test]
fn unlock_costs_five_hundred_points() {
    let catalog = test_catalog();
    let mut player = PlayerState::new(&catalog, 0, vec![], false);
    let mut rng = SmallRng::seed_from_u64(1);
    let mut state = SlayerState::new(620, 7, TaskState::Completed(Monster::Cows));
    assert_eq!(state.apply(&mut rng, &catalog, &mut player, SimulationAction::UnlockTaskStorage), Ok(()));
    assert!(player.storage_unlocked);
    assert_eq!(state.points, 120);
    let r = state.apply(&mut rng, &catalog, &mut player, SimulationAction::UnlockTaskStorage);
    assert_eq!(r, Err(RunError::IllegalAction(SimulationAction::UnlockTaskStorage)));
}

#[test]
fn turael_skip_rules() {
    let catalog = test_catalog();
    let mut player = PlayerState::new(&catalog, 250, vec![Quest::LostCity], false);
    let mut rng = SmallRng::seed_from_u64(1);
    // Turael gives Ghouls himself, so a Ghouls task cannot be dropped there.
    let mut state = SlayerState::new(0, 7, active(Monster::Ghouls, SlayerMaster::Vannaka, 42));
    let r = state.apply(&mut rng, &catalog, &mut player, SimulationAction::NewAssignment(SlayerMaster::Turael));
    assert!(r.is_err());
    // Hellhounds he does not give: dropping works and the streak restarts.
    let mut state = SlayerState::new(0, 7, active(Monster::Hellhounds, SlayerMaster::Vannaka, 42));
    let r = state.apply(&mut rng, &catalog, &mut player, SimulationAction::NewAssignment(SlayerMaster::Turael));
    assert_eq!(r, Ok(()));
    assert_eq!(state.task_streak, 0);
    // Only at Turael.
    let mut state = SlayerState::new(0, 7, active(Monster::Hellhounds, SlayerMaster::Vannaka, 42));
    let r = state.apply(&mut rng, &catalog, &mut player, SimulationAction::NewAssignment(SlayerMaster::Spria));
    assert!(r.is_err());
}

#[test]
fn quest_gated_masters() {
    let catalog = test_catalog();
    let without = PlayerState::new(&catalog, 250, vec![], false);
    let with = PlayerState::new(&catalog, 250, vec![Quest::PorcineOfInterest, Quest::LostCity], false);
    let state = SlayerState::new(0, 0, TaskState::Completed(Monster::Cows));
    assert!(!state.may_request(&catalog, SlayerMaster::Spria, &without));
    assert!(state.may_request(&catalog, SlayerMaster::Spria, &with));
    assert!(!state.may_request(&catalog, SlayerMaster::Chaeldar, &without));
    assert!(state.may_request(&catalog, SlayerMaster::Chaeldar, &with));
}

#[test]
fn per_kill_loop_matches_batch_without_effects() {
    let plain = Monster::Cows.cost_data();
    let mut rng = SmallRng::seed_from_u64(9);
    for amount in [0u32, 1, 17, 250] {
        assert_eq!(run_kills(&mut rng, &plain, amount, 13), batch_kills(amount, 13));
    }
    let b = batch_kills(20, 7);
    assert_eq!(b.kills, 20);
    assert_eq!(b.exp, 140);
    assert_eq!(b.drops, SlayerDrops::default());
}

#[test]
fn per_kill_loop_with_bracelets_spends_charges() {
    let data = Monster::CaveCrawlers.cost_data();
    assert!(data.use_bracelet_of_slaughter);
    let mut rng = SmallRng::seed_from_u64(21);
    let t = run_kills(&mut rng, &data, 400, 22);
    assert!(t.slaughter_charges > 0);
    assert!(t.kills > 400);
    assert_eq!(t.expeditious_charges, 0);
    assert_eq!(t.exp, t.kills as u128 * 22);
    let fast = Monster::Ankous.cost_data();
    assert!(fast.use_expeditious_bracelet);
    let t = run_kills(&mut rng, &fast, 400, 10);
    assert!(t.expeditious_charges > 0);
    assert!(t.kills < 400);
    assert_eq!(t.slaughter_charges, 0);
    assert_eq!(t.drops, SlayerDrops::default());
}

#[test]
fn cost_table_values() {
    let crawlers = Monster::CaveCrawlers.task_data().unwrap();
    assert_eq!(crawlers.travel_steps, 190);
    assert_eq!(crawlers.time_per_kill_ms, 7600);
    assert_eq!(crawlers.superior_unique_drop_rate, Some(Rate { numerator: 10, denominator: 1662 }));
    assert_eq!(crawlers.travel_time(), 76_000);
    assert!(Monster::Hellhounds.task_data().is_none());
    let fallback = Monster::Hellhounds.cost_data();
    assert_eq!(fallback.travel_steps, 100);
    assert_eq!(fallback.time_per_kill_ms, 30_000);
    assert_eq!(SlayerMaster::Turael.travel_time(), 16_000);
    assert_eq!(SlayerMaster::Chaeldar.travel_time(), 49_000);
    assert_eq!(SlayerMaster::Spria.travel_cost().necklace_of_passage_charges, 1);
    assert_eq!(SlayerMaster::Vannaka.travel_cost().giantsoul_amulet_charges, 1);
}

#[test]
fn gathering_time_is_summed_per_supply() {
    let s = Supplies { expeditious_bracelet_charges: 2, law_runes: 3, bracelet_of_slaughter_charges: 1, ..Supplies::default() };
    assert_eq!(s.time_to_gather(), 2 * 3033 + 3 * 500 + 46_000);
    let sum = s.add(Supplies { law_runes: 1, ..Supplies::default() });
    assert_eq!(sum.law_runes, 4);
    let max = Supplies { law_runes: u64::MAX, ..Supplies::default() }.add(sum);
    assert_eq!(max.law_runes, u64::MAX);
}

#[test]
fn time_spent_counts_travel_kills_and_storage() {
    let catalog = test_catalog();
    let player = PlayerState::new(&catalog, 250, vec![], false);
    let mut rng = SmallRng::seed_from_u64(2);
    let mut state = SlayerState::new(0, 0, TaskState::Completed(Monster::Monkeys));
    assert_eq!(state.slayer_data.time_spent(), 0);
    state.begin_task(SlayerMaster::Turael, Task { monster: Monster::Cows, master: SlayerMaster::Turael, amount: 10 });
    // Travel to Turael plus gathering one games necklace charge.
    assert_eq!(state.slayer_data.time_spent(), 16_000 + 8_000);
    let mut p = player.clone();
    state.complete_assignment(&mut rng, &catalog, &mut p);
    // Cows: 66 steps (26.4 s), 10 kills of 3.4 s, one law rune (0.5 s).
    assert_eq!(state.slayer_data.time_spent(), 16_000 + 8_000 + 26_400 + 34_000 + 500);
    assert_eq!(state.slayer_data.tasks_started(), 1);
}

fn empty_tally() -> KillTally {
    KillTally {
        kills: 0,
        exp: 0,
        slaughter_charges: 0,
        expeditious_charges: 0,
        superiors: 0,
        drops: SlayerDrops::default(),
        cut_off: false,
    }
}

fn rolls(slaughter: u32, expeditious: u32, superior: u32, unique: u32, unique_kind: u32, gem_gate: u32, gem: u32) -> KillRolls {
    KillRolls { slaughter, expeditious, superior, unique, unique_kind, gem_gate, gem }
}

#[test]
fn kill_step_applies_each_roll() {
    // Cave crawlers: bracelet of slaughter and a superior rate of 10 in 1662.
    let data = Monster::CaveCrawlers.cost_data();
    let (left, t) = kill_step(&data, 22, 10, empty_tally(), rolls(0, 0, 0, 5, 1500, 15, 0));
    // Refunded (+1), superior (-1), the kill itself (-1).
    assert_eq!(left, 9);
    assert_eq!((t.kills, t.exp, t.slaughter_charges, t.expeditious_charges, t.superiors), (1, 22, 1, 0, 1));
    assert_eq!(t.drops, SlayerDrops { mist_battlestaff: 1, eternal_gem: 1, ..SlayerDrops::default() });
    let (left, t) = kill_step(&data, 22, 10, empty_tally(), rolls(1, 0, 0, 10, 0, 20, 0));
    assert_eq!(left, 8);
    assert_eq!(t.drops, SlayerDrops::default());
    let (_, t) = kill_step(&data, 22, 10, empty_tally(), rolls(1, 0, 0, 9, 2285, 19, 1));
    assert_eq!(t.drops, SlayerDrops { imbued_heart: 1, ..SlayerDrops::default() });
    let (_, t) = kill_step(&data, 22, 10, empty_tally(), rolls(1, 0, 0, 0, 999, 3000, 0));
    assert_eq!(t.drops, SlayerDrops { dust_battlestaff: 1, ..SlayerDrops::default() });
    let (left, t) = kill_step(&data, 22, 10, empty_tally(), rolls(1, 0, 1, 0, 0, 0, 0));
    assert_eq!((left, t.superiors), (9, 0));
}

#[test]
fn kill_step_without_effects_counts_one_kill() {
    let data = Monster::Cows.cost_data();
    let (left, t) = kill_step(&data, 10, 5, empty_tally(), rolls(0, 0, 0, 0, 0, 0, 0));
    assert_eq!(left, 4);
    assert_eq!((t.kills, t.exp, t.slaughter_charges, t.expeditious_charges, t.superiors), (1, 10, 0, 0, 0));
}

#[test]
fn kill_step_never_owes_below_zero() {
    // Ankous: expeditious bracelet.
    let data = Monster::Ankous.cost_data();
    let (left, t) = kill_step(&data, 10, 1, empty_tally(), rolls(0, 0, 0, 0, 0, 0, 0));
    assert_eq!(left, 0);
    assert_eq!(t.expeditious_charges, 1);
}

#[test]
fn kill_counts_follow_refunds_and_extra_kills() {
    let mut rng = SmallRng::seed_from_u64(4);
    for m in [Monster::CaveCrawlers, Monster::Ankous, Monster::Pyrefiends] {
        let data = m.cost_data();
        let t = run_kills(&mut rng, &data, 300, 10);
        assert!(!t.cut_off);
        let owed = 300 + t.slaughter_charges as i64 - t.expeditious_charges as i64 - t.kills as i64 - t.superiors as i64;
        assert!((-2..=0).contains(&owed), "{:?} {:?}", m, t);
    }
}
