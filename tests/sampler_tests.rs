use std::collections::BTreeMap;

use rand::rngs::SmallRng;
use rand::SeedableRng;
use slayer_sim::catalog::{Assignment, Catalog, Monster, MonsterInfo, Quest, SlayerMaster, WorldState, MONSTER_COUNT};
use slayer_sim::player::PlayerState;
use slayer_sim::state::{SlayerState, Task, TaskState};

fn entry(monster: Monster, min: u32, max: u32, quest: Option<Quest>, weight: u32) -> Assignment {
    Assignment { monster, amount_min: min, amount_max: max, quest_requirement: quest, weight }
}

fn test_catalog() -> Catalog {
    let mut monsters = Vec::new();
    for i in 0..MONSTER_COUNT {
        let m = Monster::from_index(i).unwrap();
        let info = match m {
            Monster::CaveCrawlers => MonsterInfo { slayer_req: 10, slayer_exp: 22, melee_killable: true },
            Monster::Hellhounds | Monster::Ghouls => {
                MonsterInfo { slayer_req: 1, slayer_exp: 116, melee_killable: false }
            }
            _ => MonsterInfo { slayer_req: 1, slayer_exp: 10, melee_killable: true },
        };
        monsters.push(info);
    }
    Catalog {
        era: WorldState::Limp2026,
        turael: vec![
            entry(Monster::Monkeys, 15, 30, None, 8),
            entry(Monster::Birds, 15, 30, None, 6),
            entry(Monster::Cows, 15, 30, None, 8),
            entry(Monster::Rats, 15, 30, None, 7),
            entry(Monster::CaveCrawlers, 15, 30, None, 8),
            entry(Monster::Bats, 15, 30, Some(Quest::LostCity), 7),
            entry(Monster::Ghouls, 15, 30, None, 5),
            entry(Monster::Dogs, 15, 30, None, 0),
        ],
        spria: vec![
            entry(Monster::Monkeys, 15, 30, None, 8),
            entry(Monster::Cows, 15, 30, None, 8),
            entry(Monster::Zombies, 15, 30, None, 7),
        ],
        vannaka: vec![
            entry(Monster::Hellhounds, 30, 60, None, 8),
            entry(Monster::Kalphite, 30, 60, None, 9),
            entry(Monster::Pyrefiends, 30, 60, None, 8),
            entry(Monster::Ghouls, 30, 60, None, 7),
            entry(Monster::Ankous, 30, 60, None, 7),
        ],
        chaeldar: vec![
            entry(Monster::Kalphite, 40, 80, None, 11),
            entry(Monster::CaveCrawlers, 40, 80, Some(Quest::LostCity), 6),
        ],
        monsters,
        level_thresholds: vec![0, 100, 200, 300, 400, 500, 600, 700, 800, 900],
    }
}

fn low_level_player(catalog: &Catalog) -> PlayerState {
    PlayerState::new(catalog, 250, vec![Quest::LostCity], false)
}

#[test]
fn candidate_weight_excludes_gated_and_last_task() {
    let catalog = test_catalog();
    let player = low_level_player(&catalog);
    // CaveCrawlers needs level 10, the player has level 3.
    assert_eq!(player.slayer_level(), 3);
    let total = SlayerMaster::Turael.total_candidate_weight(&catalog, &player, Monster::Monkeys);
    // Birds 6 + Cows 8 + Rats 7 + Bats 7 + Ghouls 5 + Dogs 0.
    assert_eq!(total, 33);
    let without_quest = PlayerState::new(&catalog, 250, vec![], false);
    assert_eq!(SlayerMaster::Turael.total_candidate_weight(&catalog, &without_quest, Monster::Monkeys), 26);
    let high = PlayerState::new(&catalog, 1_308_538, vec![Quest::LostCity], false);
    assert_eq!(high.slayer_level(), 10);
    assert_eq!(SlayerMaster::Turael.total_candidate_weight(&catalog, &high, Monster::Birds), 43);
}

#[test]
fn draw_selects_entry_by_weight_interval() {
    let catalog = test_catalog();
    let player = low_level_player(&catalog);
    let pick = |d: u32| {
        SlayerMaster::Turael
            .assignment_for_draw(&catalog, &player, Monster::Monkeys, d)
            .map(|a| a.monster)
    };
    // Order of candidates: Birds [0,6), Cows [6,14), Rats [14,21), Bats [21,28), Ghouls [28,33).
    assert_eq!(pick(0), Some(Monster::Birds));
    assert_eq!(pick(5), Some(Monster::Birds));
    assert_eq!(pick(6), Some(Monster::Cows));
    assert_eq!(pick(13), Some(Monster::Cows));
    assert_eq!(pick(14), Some(Monster::Rats));
    assert_eq!(pick(21), Some(Monster::Bats));
    assert_eq!(pick(28), Some(Monster::Ghouls));
    assert_eq!(pick(32), Some(Monster::Ghouls));
    assert_eq!(pick(33), None);
}

#[test]
fn prefix_table_holds_running_sums() {
    let catalog = test_catalog();
    let player = low_level_player(&catalog);
    let table = SlayerMaster::Turael.possible_tasks(&catalog, &player, Monster::Monkeys);
    let sums: Vec<u32> = table.iter().map(|(w, _)| *w).collect();
    assert_eq!(sums, vec![6, 14, 21, 28, 33, 33]);
}

#[test]
fn assigned_creatures_cover_exactly_the_eligible_ones() {
    let catalog = test_catalog();
    let player = low_level_player(&catalog);
    let mut rng = SmallRng::seed_from_u64(7);
    let mut seen: BTreeMap<Monster, u32> = BTreeMap::new();
    let mut state = SlayerState::new(0, 0, TaskState::Completed(Monster::Monkeys));
    for _ in 0..20_000 {
        state.task_state = TaskState::Completed(Monster::Monkeys);
        state.new_assignment(&mut rng, &catalog, SlayerMaster::Turael, &player);
        let TaskState::Active(t) = state.task_state else {
            panic!("no active task after an assignment");
        };
        assert!(t.amount >= 15 && t.amount <= 30);
        *seen.entry(t.monster).or_insert(0) += 1;
    }
    let creatures: Vec<Monster> = seen.keys().copied().collect();
    let mut expected = vec![Monster::Birds, Monster::Cows, Monster::Rats, Monster::Bats, Monster::Ghouls];
    expected.sort();
    assert_eq!(creatures, expected);
}

#[test]
fn assignment_frequencies_follow_weights() {
    let catalog = test_catalog();
    let player = low_level_player(&catalog);
    let mut rng = SmallRng::seed_from_u64(11);
    let n = 66_000u32;
    let mut seen: BTreeMap<Monster, u32> = BTreeMap::new();
    let mut state = SlayerState::new(0, 0, TaskState::Completed(Monster::Monkeys));
    for _ in 0..n {
        state.task_state = TaskState::Completed(Monster::Monkeys);
        state.new_assignment(&mut rng, &catalog, SlayerMaster::Turael, &player);
        if let TaskState::Active(t) = state.task_state {
            *seen.entry(t.monster).or_insert(0) += 1;
        }
    }
    for (m, w) in [(Monster::Birds, 6.0), (Monster::Cows, 8.0), (Monster::Rats, 7.0), (Monster::Bats, 7.0), (Monster::Ghouls, 5.0)] {
        let observed = *seen.get(&m).unwrap_or(&0) as f64 / n as f64;
        let expected: f64 = w / 33.0;
        assert!((observed - expected).abs() < 0.01, "{:?}: {} vs {}", m, observed, expected);
    }
}

#[test]
fn amounts_are_drawn_across_the_range() {
    let catalog = test_catalog();
    let player = low_level_player(&catalog);
    let mut rng = SmallRng::seed_from_u64(3);
    let mut amounts = Vec::new();
    let mut state = SlayerState::new(0, 0, TaskState::Completed(Monster::Monkeys));
    for _ in 0..200 {
        state.task_state = TaskState::Completed(Monster::Monkeys);
        state.new_assignment(&mut rng, &catalog, SlayerMaster::Turael, &player);
        if let TaskState::Active(Task { amount, .. }) = state.task_state {
            amounts.push(amount);
        }
    }
    assert!(amounts.iter().all(|a| *a >= 15 && *a <= 30));
    assert!(amounts.iter().any(|a| *a != 15));
    assert!(amounts.iter().any(|a| *a == 30));
}

#[test]
fn never_reassigns_the_task_just_finished() {
    let catalog = test_catalog();
    let player = low_level_player(&catalog);
    let mut rng = SmallRng::seed_from_u64(5);
    let mut state = SlayerState::new(0, 0, TaskState::Completed(Monster::Cows));
    for _ in 0..2_000 {
        state.task_state = TaskState::Completed(Monster::Cows);
        state.new_assignment(&mut rng, &catalog, SlayerMaster::Turael, &player);
        if let TaskState::Active(t) = state.task_state {
            assert_ne!(t.monster, Monster::Cows);
        }
    }
}

#[test]
fn gates_are_checked_per_assignment() {
    let catalog = test_catalog();
    let player = low_level_player(&catalog);
    assert!(player.can_receive_assignment(&catalog, &entry(Monster::Bats, 1, 2, Some(Quest::LostCity), 1)));
    assert!(!player.can_receive_assignment(&catalog, &entry(Monster::Bats, 1, 2, Some(Quest::DragonSlayer), 1)));
    assert!(!player.can_receive_assignment(&catalog, &entry(Monster::CaveCrawlers, 1, 2, None, 1)));
    assert!(SlayerMaster::Turael.can_assign(&catalog, Monster::Ghouls));
    assert!(!SlayerMaster::Turael.can_assign(&catalog, Monster::Hellhounds));
    assert_eq!(SlayerMaster::Vannaka.assignments(&catalog).len(), 5);
}

#[test]
fn levels_follow_thresholds() {
    let catalog = test_catalog();
    assert_eq!(catalog.level_for_exp(0), 1);
    assert_eq!(catalog.level_for_exp(99), 1);
    assert_eq!(catalog.level_for_exp(100), 2);
    assert_eq!(catalog.level_for_exp(950), 10);
}

#[test]
fn all_monster_are_assigned_test() {
    let mut frequency: BTreeMap<Monster, u32> = BTreeMap::new();
    let mut catalog = test_catalog();
    // Entries of weight zero are never drawn.
    catalog.turael.retain(|a| a.weight > 0);

    let mut player = PlayerState::new(&catalog, 1_308_538, vec![Quest::LostCity, Quest::PorcineOfInterest], false);

    let mut slayer_state = SlayerState::new(0, 0, TaskState::Completed(Monster::Monkeys));

    let mut rng = SmallRng::seed_from_u64(42);

    const N: u32 = 100_000;
    let slayer_master = SlayerMaster::Turael;

    for _ in 0..N {
        slayer_state.new_assignment(&mut rng, &catalog, slayer_master, &player);

        let TaskState::Active(task) = slayer_state.task_state else {
            panic!();
        };
        *frequency.entry(task.monster).or_insert(0) += 1;
        slayer_state.complete_assignment(&mut rng, &catalog, &mut player);
    }

    assert_eq!(slayer_state.task_streak, N);

    assert_eq!(
        frequency.len(),
        slayer_master
            .assignments(&catalog)
            .iter()
            .filter(|a| player.can_receive_assignment(&catalog, a))
            .count(),
        "{:?}",
        frequency
    );

    for (monster, count) in frequency {
        println!("{:?}: {:.2}%", monster, 100.0 * count as f32 / N as f32);
    }
}
