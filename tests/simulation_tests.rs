use rand::rngs::SmallRng;
use rand::SeedableRng;
use rayon::prelude::{IntoParallelRefIterator, ParallelIterator};
use slayer_sim::catalog::{Assignment, Catalog, Monster, MonsterInfo, Quest, SlayerMaster, WorldState, MONSTER_COUNT};
use slayer_sim::costs::{SlayerDrops, Supplies};
use slayer_sim::driver::{replicate, run_replications, simulate_limpwurt, RunError, RunOutcome, SimulationStartPoint};
use slayer_sim::player::PlayerState;
use slayer_sim::report::{aggregate, median_run, order_stats, RunRecord};
use slayer_sim::state::{SlayerState, Task, TaskState};
use slayer_sim::strategy::{MinimizeSlayerLockStrategy, Policy, SimulationAction, SuperiorsStrategy};

fn entry(monster: Monster, min: u32, max: u32, quest: Option<Quest>, weight: u32) -> Assignment {
    Assignment { monster, amount_min: min, amount_max: max, quest_requirement: quest, weight }
}

fn test_catalog() -> Catalog {
    let mut monsters = Vec::new();
    for i in 0..MONSTER_COUNT {
        let m = Monster::from_index(i).unwrap();
        let info = match m {
            Monster::CaveCrawlers => MonsterInfo { slayer_req: 10, slayer_exp: 22, melee_killable: true },
            Monster::Hellhounds | Monster::Ghouls => {
                MonsterInfo { slayer_req: 1, slayer_exp: 116, melee_killable: false }
            }
            _ => MonsterInfo { slayer_req: 1, slayer_exp: 10, melee_killable: true },
        };
        monsters.push(info);
    }
    Catalog {
        era: WorldState::Limp2026,
        turael: vec![
            entry(Monster::Monkeys, 15, 30, None, 8),
            entry(Monster::Birds, 15, 30, None, 6),
            entry(Monster::Cows, 15, 30, None, 8),
            entry(Monster::Rats, 15, 30, None, 7),
            entry(Monster::CaveCrawlers, 15, 30, None, 8),
            entry(Monster::Bats, 15, 30, Some(Quest::LostCity), 7),
            entry(Monster::Ghouls, 15, 30, None, 5),
            entry(Monster::Dogs, 15, 30, None, 0),
        ],
        spria: vec![
            entry(Monster::Monkeys, 15, 30, None, 8),
            entry(Monster::Cows, 15, 30, None, 8),
            entry(Monster::Zombies, 15, 30, None, 7),
        ],
        vannaka: vec![
            entry(Monster::Hellhounds, 30, 60, None, 8),
            entry(Monster::Kalphite, 30, 60, None, 9),
            entry(Monster::Pyrefiends, 30, 60, None, 8),
            entry(Monster::Ghouls, 30, 60, None, 7),
            entry(Monster::Ankous, 30, 60, None, 7),
        ],
        chaeldar: vec![
            entry(Monster::Kalphite, 40, 80, None, 11),
            entry(Monster::CaveCrawlers, 40, 80, Some(Quest::LostCity), 6),
        ],
        monsters,
        level_thresholds: vec![0, 100, 200, 300, 400, 500, 600, 700, 800, 900],
    }
}

fn start_point() -> SimulationStartPoint {
    SimulationStartPoint {
        slayer_exp: 1_308_538,
        quests_done: vec![Quest::LostCity, Quest::PorcineOfInterest, Quest::DragonSlayer],
        task_streak: 1,
        points: 120,
        task_state: TaskState::Active(Task { monster: Monster::Monkeys, master: SlayerMaster::Turael, amount: 20 }),
        storage_unlocked: false,
    }
}

fn record(outcome: RunOutcome, tasks: u128, time_ms: u128) -> RunRecord {
    RunRecord {
        outcome,
        tasks,
        min_points: tasks / 2,
        total_points: tasks * 3,
        end_points: tasks,
        max_points: tasks + 1,
        time_ms,
        supplies: Supplies { law_runes: 1, ..Supplies::default() },
        drops: SlayerDrops { eternal_gem: 1, ..SlayerDrops::default() },
        cave_crawler_kills: 2,
    }
}

#[test]
fn lock_policy_completes_killable_and_drops_at_turael() {
    let catalog = test_catalog();
    let player = PlayerState::new(&catalog, 250, vec![], false);
    let p = MinimizeSlayerLockStrategy {};
    let s = SlayerState::new(0, 3, TaskState::Active(Task { monster: Monster::Kalphite, master: SlayerMaster::Vannaka, amount: 30 }));
    assert_eq!(p.select_action(&s, &catalog), Some(SimulationAction::CompleteTask));
    let s = SlayerState::new(0, 3, TaskState::Active(Task { monster: Monster::Hellhounds, master: SlayerMaster::Vannaka, amount: 30 }));
    assert_eq!(p.select_action(&s, &catalog), Some(SimulationAction::NewAssignment(SlayerMaster::Turael)));
    let s = SlayerState::new(40, 3, TaskState::Active(Task { monster: Monster::Ghouls, master: SlayerMaster::Vannaka, amount: 30 }));
    assert_eq!(p.select_action(&s, &catalog), Some(SimulationAction::PointSkip));
    let s = SlayerState::new(10, 3, TaskState::Active(Task { monster: Monster::Ghouls, master: SlayerMaster::Vannaka, amount: 30 }));
    assert_eq!(p.select_action(&s, &catalog), None);
    assert_eq!(p.should_terminate(&s, &player, &catalog), Some(false));
}

#[test]
fn lock_policy_picks_master_by_streak() {
    let catalog = test_catalog();
    let p = MinimizeSlayerLockStrategy {};
    let at = |streak: u32| p.select_action(&SlayerState::new(0, streak, TaskState::Completed(Monster::Cows)), &catalog);
    assert_eq!(at(2), Some(SimulationAction::NewAssignment(SlayerMaster::Spria)));
    assert_eq!(at(8), Some(SimulationAction::NewAssignment(SlayerMaster::Spria)));
    assert_eq!(at(9), Some(SimulationAction::NewAssignment(SlayerMaster::Vannaka)));
    assert_eq!(at(13), Some(SimulationAction::NewAssignment(SlayerMaster::Vannaka)));
    assert_eq!(at(14), Some(SimulationAction::NewAssignment(SlayerMaster::Spria)));
}

#[test]
fn lock_policy_succeeds_at_target_points() {
    let catalog = test_catalog();
    let player = PlayerState::new(&catalog, 250, vec![], false);
    let p = MinimizeSlayerLockStrategy {};
    assert_eq!(p.should_terminate(&SlayerState::new(1000, 3, TaskState::Completed(Monster::Cows)), &player, &catalog), Some(true));
    assert_eq!(p.should_terminate(&SlayerState::new(999, 3, TaskState::Completed(Monster::Cows)), &player, &catalog), None);
}

#[test]
fn superiors_policy_unlocks_storage_and_switches_mode() {
    let catalog = test_catalog();
    let locked = PlayerState::new(&catalog, 250, vec![], false);
    let unlocked = PlayerState::new(&catalog, 250, vec![], true);
    let mut mode = SuperiorsStrategy::AccumulatePoints;
    let s = SlayerState::new(620, 3, TaskState::Completed(Monster::Cows));
    assert_eq!(mode.select_action(&s, &locked, &catalog), Some(SimulationAction::UnlockTaskStorage));
    let s = SlayerState::new(1001, 3, TaskState::Completed(Monster::Cows));
    assert_eq!(mode.select_action(&s, &unlocked, &catalog), Some(SimulationAction::NewAssignment(SlayerMaster::Vannaka)));
    assert_eq!(mode, SuperiorsStrategy::GetSuperiors);
    let s = SlayerState::new(499, 3, TaskState::Completed(Monster::Cows));
    assert_eq!(mode.select_action(&s, &unlocked, &catalog), Some(SimulationAction::NewAssignment(SlayerMaster::Turael)));
    assert_eq!(mode, SuperiorsStrategy::AccumulatePoints);
    let s = SlayerState::new(100, 3, TaskState::Active(Task { monster: Monster::Ghouls, master: SlayerMaster::Vannaka, amount: 30 }));
    assert_eq!(mode.select_action(&s, &unlocked, &catalog), Some(SimulationAction::StoreTask));
}

#[test]
fn superiors_policy_ends_with_every_unique() {
    let catalog = test_catalog();
    let player = PlayerState::new(&catalog, 250, vec![], true);
    let mut s = SlayerState::new(100, 3, TaskState::Completed(Monster::Cows));
    let mode = SuperiorsStrategy::AccumulatePoints;
    assert_eq!(mode.should_terminate(&s, &player, &catalog), None);
    s.slayer_data.drops = SlayerDrops { dust_battlestaff: 1, mist_battlestaff: 2, imbued_heart: 1, eternal_gem: 1 };
    assert_eq!(mode.should_terminate(&s, &player, &catalog), Some(true));
}

#[test]
fn seeded_run_is_deterministic() {
    let catalog = test_catalog();
    let run = |seed: u64| {
        let mut rng = SmallRng::seed_from_u64(seed);
        let res = simulate_limpwurt(start_point(), Policy::MinimizeSlayerLock, &catalog, &mut rng, 1_000_000).unwrap();
        (res.state.points, res.state.task_streak, res.outcome)
    };
    let first = run(2024);
    assert_eq!(first, run(2024));
    assert!(first.2 == RunOutcome::Success || first.2 == RunOutcome::Failure);
    if first.2 == RunOutcome::Success {
        assert!(first.0 >= 1000);
    } else {
        assert!(first.0 < 30);
    }
}

#[test]
fn golden_lock_policy_run() {
    let catalog = test_catalog();
    let mut rng = SmallRng::seed_from_u64(2024);
    let res = simulate_limpwurt(start_point(), Policy::MinimizeSlayerLock, &catalog, &mut rng, 1_000_000).unwrap();
    assert_eq!((res.state.points, res.state.task_streak, res.outcome), (1002, 20, RunOutcome::Success));
}

#[test]
fn policy_without_a_step_is_an_error() {
    let catalog = test_catalog();
    let mut rng = SmallRng::seed_from_u64(1);
    let start = SimulationStartPoint {
        slayer_exp: 250,
        quests_done: vec![],
        task_streak: 3,
        points: 10,
        task_state: TaskState::Active(Task { monster: Monster::Ghouls, master: SlayerMaster::Vannaka, amount: 30 }),
        storage_unlocked: true,
    };
    let res = simulate_limpwurt(start, Policy::MinimizeSlayerLock, &catalog, &mut rng, 100);
    assert_eq!(res.err(), Some(RunError::NoAction));
}

#[test]
fn step_limit_is_reported() {
    let catalog = test_catalog();
    let mut rng = SmallRng::seed_from_u64(1);
    let res = simulate_limpwurt(start_point(), Policy::MinimizeSlayerLock, &catalog, &mut rng, 3).unwrap();
    assert_eq!(res.outcome, RunOutcome::StepLimit);
}

#[test]
fn superiors_run_reaches_a_verdict() {
    let catalog = test_catalog();
    let mut rng = SmallRng::seed_from_u64(99);
    let res = simulate_limpwurt(start_point(), Policy::Superiors(SuperiorsStrategy::AccumulatePoints), &catalog, &mut rng, 200_000);
    let r = res.unwrap();
    if r.outcome == RunOutcome::Success {
        let d = r.state.slayer_data.drops;
        assert!(d.dust_battlestaff > 0 && d.mist_battlestaff > 0 && d.imbued_heart > 0 && d.eternal_gem > 0);
    }
    assert!(r.player.storage_unlocked || r.outcome != RunOutcome::Success);
}

#[test]
fn order_statistics_of_values() {
    let s = order_stats(&vec![9, 1, 5, 3, 7]);
    assert_eq!((s.count, s.min, s.median, s.max), (5, 1, 5, 9));
    let s = order_stats(&vec![4, 2]);
    assert_eq!((s.count, s.min, s.median, s.max), (2, 2, 4, 4));
    let s = order_stats(&vec![]);
    assert_eq!((s.count, s.min, s.median, s.max), (0, 0, 0, 0));
}

#[test]
fn report_sums_and_partitions() {
    let records = vec![
        record(RunOutcome::Success, 10, 500),
        record(RunOutcome::Failure, 4, 100),
        record(RunOutcome::Success, 30, 900),
        record(RunOutcome::Success, 20, 700),
        record(RunOutcome::StepLimit, 99, 9999),
    ];
    let r = aggregate(&records);
    assert_eq!((r.runs, r.successes, r.failures, r.step_limited), (5, 3, 1, 1));
    assert_eq!(r.tasks_received, 163);
    assert_eq!((r.success.tasks.min, r.success.tasks.median, r.success.tasks.max), (10, 20, 30));
    assert_eq!(r.success.time_ms.median, 700);
    assert_eq!(r.failure.max_points.max, 5);
    assert_eq!(r.all_supplies.law_runes, 5);
    assert_eq!(r.all_drops.eternal_gem, 5);
    assert_eq!(r.cave_crawlers_killed, 10);
}

#[test]
fn report_ignores_record_order() {
    let mut records = vec![
        record(RunOutcome::Success, 10, 500),
        record(RunOutcome::Failure, 4, 100),
        record(RunOutcome::Success, 30, 900),
        record(RunOutcome::Failure, 8, 300),
    ];
    let a = aggregate(&records);
    records.reverse();
    assert_eq!(aggregate(&records), a);
    records.swap(0, 2);
    assert_eq!(aggregate(&records), a);
}

#[test]
fn parallel_and_sequential_replications_agree() {
    let catalog = test_catalog();
    let start = start_point();
    let seeds: Vec<u64> = (0..24).collect();
    let sequential = run_replications(&start, Policy::MinimizeSlayerLock, &catalog, &seeds, 1_000_000).unwrap();
    let parallel: Vec<RunRecord> = seeds
        .par_iter()
        .map(|s| replicate(&start, Policy::MinimizeSlayerLock, &catalog, *s, 1_000_000).unwrap())
        .collect();
    assert_eq!(aggregate(&sequential), aggregate(&parallel));
    let mut reversed = parallel.clone();
    reversed.reverse();
    assert_eq!(aggregate(&sequential), aggregate(&reversed));
    assert_eq!(aggregate(&sequential).runs, 24);
}

#[test]
fn decided_start_needs_no_step() {
    let catalog = test_catalog();
    let mut start = start_point();
    start.points = 1000;
    start.task_state = TaskState::Completed(Monster::Cows);
    let rec = replicate(&start, Policy::MinimizeSlayerLock, &catalog, 5, 1_000).unwrap();
    assert_eq!(rec.outcome, RunOutcome::Success);
    assert_eq!(rec.end_points, 1000);
    assert_eq!(rec.tasks, 0);
    let mut rng = SmallRng::seed_from_u64(1);
    let res = simulate_limpwurt(start.clone(), Policy::MinimizeSlayerLock, &catalog, &mut rng, 0).unwrap();
    assert_eq!(res.outcome, RunOutcome::Success);
}

#[test]
fn no_steps_allowed_gives_step_limit() {
    let catalog = test_catalog();
    let mut rng = SmallRng::seed_from_u64(1);
    let res = simulate_limpwurt(start_point(), Policy::MinimizeSlayerLock, &catalog, &mut rng, 0).unwrap();
    assert_eq!(res.outcome, RunOutcome::StepLimit);
    assert_eq!(res.state.points, 120);
}

#[test]
fn no_seeds_no_records() {
    let catalog = test_catalog();
    let records = run_replications(&start_point(), Policy::MinimizeSlayerLock, &catalog, &vec![], 10).unwrap();
    assert!(records.is_empty());
}

#[test]
fn median_run_is_the_successful_run_at_median_time() {
    let records = vec![
        record(RunOutcome::Failure, 4, 700),
        record(RunOutcome::Success, 10, 500),
        record(RunOutcome::Success, 30, 900),
        record(RunOutcome::Success, 20, 700),
    ];
    assert_eq!(median_run(&records), Some(3));
    let r = aggregate(&records);
    assert_eq!(r.success_time_ms, 2100);
    assert_eq!(median_run(&vec![record(RunOutcome::Failure, 1, 1)]), None);
}

#[test]
fn superiors_policy_drops_at_turael_only_what_turael_does_not_give() {
    let catalog = test_catalog();
    let player = PlayerState::new(&catalog, 250, vec![], true);
    let mut mode = SuperiorsStrategy::GetSuperiors;
    // Turael gives cows himself: pay instead of dropping there.
    let s = SlayerState::new(600, 3, TaskState::Active(Task { monster: Monster::Cows, master: SlayerMaster::Vannaka, amount: 30 }));
    assert_eq!(mode.select_action(&s, &player, &catalog), Some(SimulationAction::PointSkip));
    // Ankous he does not give: drop them at Turael.
    let s = SlayerState::new(600, 3, TaskState::Active(Task { monster: Monster::Ankous, master: SlayerMaster::Vannaka, amount: 30 }));
    assert_eq!(mode.select_action(&s, &player, &catalog), Some(SimulationAction::NewAssignment(SlayerMaster::Turael)));
}
