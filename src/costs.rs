use vstd::prelude::*;

use crate::catalog::{Monster, SlayerMaster};

verus! {

/// Time needed to put the active task into storage, in milliseconds.
pub const STORE_TASK_TIME_MS: u64 = 3000;

/// Time needed to take the stored task back out, in milliseconds.
pub const UNSTORE_TASK_TIME_MS: u64 = 3000;

/// Length of one game tick, in milliseconds.
pub const GAME_TICK_MS: u64 = 600;

/// Consumable charges spent over a run.
#[derive(Clone, Copy, PartialEq, Eq, Structural, Debug)]
pub struct Supplies {
    pub expeditious_bracelet_charges: u64,
    pub bracelet_of_slaughter_charges: u64,
    pub games_necklace_charges: u64,
    pub dueling_ring_charges: u64,
    pub necklace_of_passage_charges: u64,
    pub chronicle_charges: u64,
    pub skull_sceptre_charges: u64,
    pub giantsoul_amulet_charges: u64,
    pub law_runes: u64,
}

/// A teleport item of which one charge is spent to travel somewhere.
#[derive(Clone, Copy, PartialEq, Eq, Structural, Debug)]
pub enum TravelItem {
    GamesNecklace,
    DuelingRing,
    NecklaceOfPassage,
    Chronicle,
    SkullSceptre,
    GiantsoulAmulet,
    LawRune,
}

/// `a + b`, or `u64::MAX` where that does not fit.
pub open spec fn sat_add(a: u64, b: u64) -> u64 {
    if a + b > u64::MAX {
        u64::MAX
    } else {
        (a + b) as u64
    }
}

pub open spec fn no_supplies() -> Supplies {
    Supplies {
        expeditious_bracelet_charges: 0,
        bracelet_of_slaughter_charges: 0,
        games_necklace_charges: 0,
        dueling_ring_charges: 0,
        necklace_of_passage_charges: 0,
        chronicle_charges: 0,
        skull_sceptre_charges: 0,
        giantsoul_amulet_charges: 0,
        law_runes: 0,
    }
}

/// One charge of `item`, or nothing.
pub open spec fn supplies_of(item: Option<TravelItem>) -> Supplies {
    let z = no_supplies();
    match item {
        None => z,
        Some(TravelItem::GamesNecklace) => Supplies { games_necklace_charges: 1, ..z },
        Some(TravelItem::DuelingRing) => Supplies { dueling_ring_charges: 1, ..z },
        Some(TravelItem::NecklaceOfPassage) => Supplies { necklace_of_passage_charges: 1, ..z },
        Some(TravelItem::Chronicle) => Supplies { chronicle_charges: 1, ..z },
        Some(TravelItem::SkullSceptre) => Supplies { skull_sceptre_charges: 1, ..z },
        Some(TravelItem::GiantsoulAmulet) => Supplies { giantsoul_amulet_charges: 1, ..z },
        Some(TravelItem::LawRune) => Supplies { law_runes: 1, ..z },
    }
}

impl Default for Supplies {
    fn default() -> (r: Supplies)
        ensures
            r == no_supplies(),
    {
        Supplies {
            expeditious_bracelet_charges: 0,
            bracelet_of_slaughter_charges: 0,
            games_necklace_charges: 0,
            dueling_ring_charges: 0,
            necklace_of_passage_charges: 0,
            chronicle_charges: 0,
            skull_sceptre_charges: 0,
            giantsoul_amulet_charges: 0,
            law_runes: 0,
        }
    }
}

impl Supplies {
    /// Field-wise sum, each field saturating at `u64::MAX`.
    pub open spec fn plus(self, o: Supplies) -> Supplies {
        Supplies {
            expeditious_bracelet_charges: sat_add(
                self.expeditious_bracelet_charges,
                o.expeditious_bracelet_charges,
            ),
            bracelet_of_slaughter_charges: sat_add(
                self.bracelet_of_slaughter_charges,
                o.bracelet_of_slaughter_charges,
            ),
            games_necklace_charges: sat_add(self.games_necklace_charges, o.games_necklace_charges),
            dueling_ring_charges: sat_add(self.dueling_ring_charges, o.dueling_ring_charges),
            necklace_of_passage_charges: sat_add(
                self.necklace_of_passage_charges,
                o.necklace_of_passage_charges,
            ),
            chronicle_charges: sat_add(self.chronicle_charges, o.chronicle_charges),
            skull_sceptre_charges: sat_add(self.skull_sceptre_charges, o.skull_sceptre_charges),
            giantsoul_amulet_charges: sat_add(
                self.giantsoul_amulet_charges,
                o.giantsoul_amulet_charges,
            ),
            law_runes: sat_add(self.law_runes, o.law_runes),
        }
    }

    /// Time to gather the supplies, in milliseconds.
    pub open spec fn gather_ms(self) -> int {
        3033 * self.expeditious_bracelet_charges + 46000 * self.bracelet_of_slaughter_charges + 8000
            * self.games_necklace_charges + 8000 * self.dueling_ring_charges + 3000
            * self.necklace_of_passage_charges + 500 * self.chronicle_charges + 2000
            * self.skull_sceptre_charges + 8000 * self.giantsoul_amulet_charges + 500
            * self.law_runes
    }

    /// One charge of `item`, or nothing.
    pub fn for_item(item: Option<TravelItem>) -> (r: Supplies)
        ensures
            r == supplies_of(item),
    {
        let z = Supplies::default();
        match item {
            None => z,
            Some(TravelItem::GamesNecklace) => Supplies { games_necklace_charges: 1, ..z },
            Some(TravelItem::DuelingRing) => Supplies { dueling_ring_charges: 1, ..z },
            Some(TravelItem::NecklaceOfPassage) => Supplies { necklace_of_passage_charges: 1, ..z },
            Some(TravelItem::Chronicle) => Supplies { chronicle_charges: 1, ..z },
            Some(TravelItem::SkullSceptre) => Supplies { skull_sceptre_charges: 1, ..z },
            Some(TravelItem::GiantsoulAmulet) => Supplies { giantsoul_amulet_charges: 1, ..z },
            Some(TravelItem::LawRune) => Supplies { law_runes: 1, ..z },
        }
    }

    /// Field-wise sum, each field saturating at `u64::MAX`.
    pub fn add(self, o: Supplies) -> (r: Supplies)
        ensures
            r == self.plus(o),
    {
        Supplies {
            expeditious_bracelet_charges: self.expeditious_bracelet_charges.saturating_add(
                o.expeditious_bracelet_charges,
            ),
            bracelet_of_slaughter_charges: self.bracelet_of_slaughter_charges.saturating_add(
                o.bracelet_of_slaughter_charges,
            ),
            games_necklace_charges: self.games_necklace_charges.saturating_add(
                o.games_necklace_charges,
            ),
            dueling_ring_charges: self.dueling_ring_charges.saturating_add(o.dueling_ring_charges),
            necklace_of_passage_charges: self.necklace_of_passage_charges.saturating_add(
                o.necklace_of_passage_charges,
            ),
            chronicle_charges: self.chronicle_charges.saturating_add(o.chronicle_charges),
            skull_sceptre_charges: self.skull_sceptre_charges.saturating_add(
                o.skull_sceptre_charges,
            ),
            giantsoul_amulet_charges: self.giantsoul_amulet_charges.saturating_add(
                o.giantsoul_amulet_charges,
            ),
            law_runes: self.law_runes.saturating_add(o.law_runes),
        }
    }

    /// Time to gather the supplies, in milliseconds.
    pub fn time_to_gather(&self) -> (r: u128)
        ensures
            r == self.gather_ms(),
    {
        3033 * (self.expeditious_bracelet_charges as u128) + 46000 * (
        self.bracelet_of_slaughter_charges as u128) + 8000 * (self.games_necklace_charges as u128)
            + 8000 * (self.dueling_ring_charges as u128) + 3000 * (
        self.necklace_of_passage_charges as u128) + 500 * (self.chronicle_charges as u128) + 2000
            * (self.skull_sceptre_charges as u128) + 8000 * (self.giantsoul_amulet_charges as u128)
            + 500 * (self.law_runes as u128)
    }
}

/// The unique drops that a superior can give.
#[derive(Clone, Copy, PartialEq, Eq, Structural, Debug)]
pub struct SlayerDrops {
    pub dust_battlestaff: u64,
    pub mist_battlestaff: u64,
    pub imbued_heart: u64,
    pub eternal_gem: u64,
}

pub open spec fn no_drops() -> SlayerDrops {
    SlayerDrops { dust_battlestaff: 0, mist_battlestaff: 0, imbued_heart: 0, eternal_gem: 0 }
}

impl Default for SlayerDrops {
    fn default() -> (r: SlayerDrops)
        ensures
            r == no_drops(),
    {
        SlayerDrops { dust_battlestaff: 0, mist_battlestaff: 0, imbued_heart: 0, eternal_gem: 0 }
    }
}

impl SlayerDrops {
    /// Field-wise sum, each field saturating at `u64::MAX`.
    pub open spec fn plus(self, o: SlayerDrops) -> SlayerDrops {
        SlayerDrops {
            dust_battlestaff: sat_add(self.dust_battlestaff, o.dust_battlestaff),
            mist_battlestaff: sat_add(self.mist_battlestaff, o.mist_battlestaff),
            imbued_heart: sat_add(self.imbued_heart, o.imbued_heart),
            eternal_gem: sat_add(self.eternal_gem, o.eternal_gem),
        }
    }

    /// Field-wise sum, each field saturating at `u64::MAX`.
    pub fn add(self, o: SlayerDrops) -> (r: SlayerDrops)
        ensures
            r == self.plus(o),
    {
        SlayerDrops {
            dust_battlestaff: self.dust_battlestaff.saturating_add(o.dust_battlestaff),
            mist_battlestaff: self.mist_battlestaff.saturating_add(o.mist_battlestaff),
            imbued_heart: self.imbued_heart.saturating_add(o.imbued_heart),
            eternal_gem: self.eternal_gem.saturating_add(o.eternal_gem),
        }
    }

    /// Whether every unique has dropped at least once.
    pub open spec fn complete_set(self) -> bool {
        self.dust_battlestaff > 0 && self.mist_battlestaff > 0 && self.imbued_heart > 0
            && self.eternal_gem > 0
    }
}

/// A probability `numerator / denominator`.
#[derive(Clone, Copy, PartialEq, Eq, Structural, Debug)]
pub struct Rate {
    pub numerator: u32,
    pub denominator: u32,
}

/// How a creature's task is carried out: travel, kill speed and the
/// per-kill effects that apply to it.
#[derive(Clone, Copy, PartialEq, Eq, Structural, Debug)]
pub struct MonsterData {
    pub travel_steps: u32,
    pub time_per_kill_ms: u32,
    pub travel_supplies: Supplies,
    /// Chance that a superior drops one of the main uniques.
    pub superior_unique_drop_rate: Option<Rate>,
    pub use_expeditious_bracelet: bool,
    pub use_bracelet_of_slaughter: bool,
}

impl MonsterData {
    pub open spec fn wf(self) -> bool {
        self.superior_unique_drop_rate matches Some(r) ==> r.denominator > 0
    }

    /// Travel time in milliseconds: a tick per step, at one and a half
    /// times walking speed on average.
    pub open spec fn travel_ms(self) -> int {
        400 * self.travel_steps
    }

    /// Whether the task needs kill-by-kill simulation.
    pub open spec fn per_kill(self) -> bool {
        self.superior_unique_drop_rate is Some || self.use_bracelet_of_slaughter
            || self.use_expeditious_bracelet
    }

    /// Travel time to the creature, in milliseconds.
    pub fn travel_time(&self) -> (r: u64)
        ensures
            r == self.travel_ms(),
    {
        let per_step: u64 = GAME_TICK_MS * 2 / 3;
        assert(per_step == 400);
        per_step * (self.travel_steps as u64)
    }
}

pub open spec fn cost_entry(
    travel_steps: u32,
    time_per_kill_ms: u32,
    item: Option<TravelItem>,
    superior_unique_drop_rate: Option<Rate>,
    use_expeditious_bracelet: bool,
    use_bracelet_of_slaughter: bool,
) -> MonsterData {
    MonsterData {
        travel_steps,
        time_per_kill_ms,
        travel_supplies: supplies_of(item),
        superior_unique_drop_rate,
        use_expeditious_bracelet,
        use_bracelet_of_slaughter,
    }
}

fn make_entry(
    travel_steps: u32,
    time_per_kill_ms: u32,
    item: Option<TravelItem>,
    superior_unique_drop_rate: Option<Rate>,
    use_expeditious_bracelet: bool,
    use_bracelet_of_slaughter: bool,
) -> (r: MonsterData)
    ensures
        r == cost_entry(
            travel_steps,
            time_per_kill_ms,
            item,
            superior_unique_drop_rate,
            use_expeditious_bracelet,
            use_bracelet_of_slaughter,
        ),
{
    MonsterData {
        travel_steps,
        time_per_kill_ms,
        travel_supplies: Supplies::for_item(item),
        superior_unique_drop_rate,
        use_expeditious_bracelet,
        use_bracelet_of_slaughter,
    }
}

/// The cost table: travel steps, milliseconds per kill, travel item,
/// superior unique rate and bracelets, for the creatures that have been measured.
pub open spec fn monster_costs(m: Monster) -> Option<MonsterData> {
    match m {
        Monster::AberrantSpectres => None,
        Monster::AbyssalDemons => None,
        Monster::Ankous => Some(
            cost_entry(80, 13200, Some(TravelItem::SkullSceptre), None, true, false),
        ),
        Monster::Aviansie => None,
        Monster::Banshees => None,
        Monster::Basilisks => None,
        Monster::Bats => Some(
            cost_entry(306, 3300, Some(TravelItem::Chronicle), None, false, false),
        ),
        Monster::Bears => Some(
            cost_entry(112, 8300, Some(TravelItem::LawRune), None, true, false),
        ),
        Monster::Birds => Some(
            cost_entry(14, 2200, Some(TravelItem::Chronicle), None, false, false),
        ),
        Monster::BlackDemons => None,
        Monster::Bloodveld => None,
        Monster::BlueDragons => None,
        Monster::BrineRats => None,
        Monster::CaveBugs => Some(
            cost_entry(190, 3100, Some(TravelItem::LawRune), None, false, false),
        ),
        Monster::CaveCrawlers => Some(
            cost_entry(190, 7600, Some(TravelItem::LawRune), Some(Rate { numerator: 10, denominator: 1662 }), false, true),
        ),
        Monster::CaveHorrors => None,
        Monster::CaveKraken => None,
        Monster::CaveSlimes => Some(
            cost_entry(190, 8700, Some(TravelItem::LawRune), None, true, false),
        ),
        Monster::Cockatrice => None,
        Monster::Cows => Some(
            cost_entry(66, 3400, Some(TravelItem::LawRune), None, false, false),
        ),
        Monster::Crabs => None,
        Monster::CrawlingHands => None,
        Monster::Crocodiles => Some(
            cost_entry(103, 17100, None, None, true, false),
        ),
        Monster::CustodianStalker => None,
        Monster::Dagannoth => None,
        Monster::DustDevils => None,
        Monster::Dogs => Some(
            cost_entry(120, 8900, None, None, true, false),
        ),
        Monster::Dwarves => Some(
            cost_entry(100, 7600, Some(TravelItem::SkullSceptre), None, true, false),
        ),
        Monster::Elves => None,
        Monster::FeverSpiders => None,
        Monster::FireGiants => Some(
            cost_entry(0, 480_000, None, None, true, false),
        ),
        Monster::FossilIslandWyverns => None,
        Monster::Gargoyles => None,
        Monster::Ghosts => Some(
            cost_entry(200, 7300, Some(TravelItem::SkullSceptre), None, true, false),
        ),
        Monster::Ghouls => None,
        Monster::Goblins => Some(
            cost_entry(32, 2600, Some(TravelItem::LawRune), None, false, false),
        ),
        Monster::GreaterDemons => None,
        Monster::HarpieBugSwarms => None,
        Monster::Hellhounds => None,
        Monster::HillGiants => Some(
            cost_entry(5, 7800, Some(TravelItem::GiantsoulAmulet), None, false, false),
        ),
        Monster::Hobgoblins => Some(
            cost_entry(89, 11_000, Some(TravelItem::GiantsoulAmulet), None, true, false),
        ),
        Monster::Icefiends => Some(
            cost_entry(140, 5500, Some(TravelItem::LawRune), None, false, false),
        ),
        Monster::IceGiants => Some(
            cost_entry(10, 11_200, Some(TravelItem::GiantsoulAmulet), None, true, false),
        ),
        Monster::IceWarriors => Some(
            cost_entry(136, 10_000, Some(TravelItem::GiantsoulAmulet), None, true, false),
        ),
        Monster::InfernalMages => None,
        Monster::Jellies => None,
        Monster::JungleHorrors => None,
        Monster::Kalphite => Some(
            cost_entry(60, 10500, None, None, true, false),
        ),
        Monster::Kurask => None,
        Monster::LesserDemons => None,
        Monster::LesserNagua => None,
        Monster::Lizardmen => None,
        Monster::Lizards => Some(
            cost_entry(108, 4700, None, None, false, false),
        ),
        Monster::Minotaurs => Some(
            cost_entry(44, 3800, Some(TravelItem::SkullSceptre), None, false, false),
        ),
        Monster::Mogres => None,
        Monster::Molanisks => None,
        Monster::Monkeys => Some(
            cost_entry(120, 4100, Some(TravelItem::LawRune), None, true, false),
        ),
        Monster::MossGiants => Some(
            cost_entry(22, 12_600, Some(TravelItem::GiantsoulAmulet), None, true, false),
        ),
        Monster::MutatedZygomites => None,
        Monster::Nechryael => None,
        Monster::Ogres => None,
        Monster::OtherwordlyBeings => Some(
            cost_entry(240, 14_000, Some(TravelItem::LawRune), None, true, false),
        ),
        Monster::Pyrefiends => Some(
            cost_entry(535, 15000, None, Some(Rate { numerator: 10, denominator: 1422 }), false, true),
        ),
        Monster::Rats => Some(
            cost_entry(20, 2600, Some(TravelItem::LawRune), None, false, false),
        ),
        Monster::Scorpions => Some(
            cost_entry(66, 5200, Some(TravelItem::DuelingRing), None, false, false),
        ),
        Monster::SeaSnakes => None,
        Monster::Shades => Some(
            cost_entry(70, 40_200, Some(TravelItem::SkullSceptre), None, true, false),
        ),
        Monster::ShadowWarriors => None,
        Monster::SkeletalWyverns => None,
        Monster::Skeletons => Some(
            cost_entry(100, 8100, Some(TravelItem::SkullSceptre), None, true, false),
        ),
        Monster::Sourhogs => Some(
            cost_entry(72, 8000, Some(TravelItem::SkullSceptre), None, false, false),
        ),
        Monster::Spiders => Some(
            cost_entry(76, 3000, Some(TravelItem::LawRune), None, false, false),
        ),
        Monster::SpiritualCreatures => None,
        Monster::TerrorDogs => None,
        Monster::Trolls => Some(
            cost_entry(74, 24_000, Some(TravelItem::GamesNecklace), None, true, false),
        ),
        Monster::Turoth => None,
        Monster::TzHaar => None,
        Monster::Vampyres => None,
        Monster::WarpedCreatures => None,
        Monster::Werewolves => None,
        Monster::Wolves => Some(
            cost_entry(40, 3800, Some(TravelItem::SkullSceptre), None, false, false),
        ),
        Monster::Wyrms => None,
        Monster::Zombies => Some(
            cost_entry(104, 8300, Some(TravelItem::SkullSceptre), None, true, false),
        ),
    }
}

/// Cost data used for creatures missing from the table.
pub open spec fn fallback_costs() -> MonsterData {
    cost_entry(100, 30000, None, None, false, false)
}

pub open spec fn costs_or_fallback(m: Monster) -> MonsterData {
    match monster_costs(m) {
        Some(d) => d,
        None => fallback_costs(),
    }
}

impl Monster {
    /// The measured cost data of the creature, if any.
    pub fn task_data(&self) -> (r: Option<MonsterData>)
        ensures
            r == monster_costs(*self),
            r matches Some(d) ==> d.wf(),
    {
        match self {
                Monster::AberrantSpectres => None,
                Monster::AbyssalDemons => None,
                Monster::Ankous => Some(
                    make_entry(80, 13200, Some(TravelItem::SkullSceptre), None, true, false),
                ),
                Monster::Aviansie => None,
                Monster::Banshees => None,
                Monster::Basilisks => None,
                Monster::Bats => Some(
                    make_entry(306, 3300, Some(TravelItem::Chronicle), None, false, false),
                ),
                Monster::Bears => Some(
                    make_entry(112, 8300, Some(TravelItem::LawRune), None, true, false),
                ),
                Monster::Birds => Some(
                    make_entry(14, 2200, Some(TravelItem::Chronicle), None, false, false),
                ),
                Monster::BlackDemons => None,
                Monster::Bloodveld => None,
                Monster::BlueDragons => None,
                Monster::BrineRats => None,
                Monster::CaveBugs => Some(
                    make_entry(190, 3100, Some(TravelItem::LawRune), None, false, false),
                ),
                Monster::CaveCrawlers => Some(
                    make_entry(190, 7600, Some(TravelItem::LawRune), Some(Rate { numerator: 10, denominator: 1662 }), false, true),
                ),
                Monster::CaveHorrors => None,
                Monster::CaveKraken => None,
                Monster::CaveSlimes => Some(
                    make_entry(190, 8700, Some(TravelItem::LawRune), None, true, false),
                ),
                Monster::Cockatrice => None,
                Monster::Cows => Some(
                    make_entry(66, 3400, Some(TravelItem::LawRune), None, false, false),
                ),
                Monster::Crabs => None,
                Monster::CrawlingHands => None,
                Monster::Crocodiles => Some(
                    make_entry(103, 17100, None, None, true, false),
                ),
                Monster::CustodianStalker => None,
                Monster::Dagannoth => None,
                Monster::DustDevils => None,
                Monster::Dogs => Some(
                    make_entry(120, 8900, None, None, true, false),
                ),
                Monster::Dwarves => Some(
                    make_entry(100, 7600, Some(TravelItem::SkullSceptre), None, true, false),
                ),
                Monster::Elves => None,
                Monster::FeverSpiders => None,
                Monster::FireGiants => Some(
                    make_entry(0, 480_000, None, None, true, false),
                ),
                Monster::FossilIslandWyverns => None,
                Monster::Gargoyles => None,
                Monster::Ghosts => Some(
                    make_entry(200, 7300, Some(TravelItem::SkullSceptre), None, true, false),
                ),
                Monster::Ghouls => None,
                Monster::Goblins => Some(
                    make_entry(32, 2600, Some(TravelItem::LawRune), None, false, false),
                ),
                Monster::GreaterDemons => None,
                Monster::HarpieBugSwarms => None,
                Monster::Hellhounds => None,
                Monster::HillGiants => Some(
                    make_entry(5, 7800, Some(TravelItem::GiantsoulAmulet), None, false, false),
                ),
                Monster::Hobgoblins => Some(
                    make_entry(89, 11_000, Some(TravelItem::GiantsoulAmulet), None, true, false),
                ),
                Monster::Icefiends => Some(
                    make_entry(140, 5500, Some(TravelItem::LawRune), None, false, false),
                ),
                Monster::IceGiants => Some(
                    make_entry(10, 11_200, Some(TravelItem::GiantsoulAmulet), None, true, false),
                ),
                Monster::IceWarriors => Some(
                    make_entry(136, 10_000, Some(TravelItem::GiantsoulAmulet), None, true, false),
                ),
                Monster::InfernalMages => None,
                Monster::Jellies => None,
                Monster::JungleHorrors => None,
                Monster::Kalphite => Some(
                    make_entry(60, 10500, None, None, true, false),
                ),
                Monster::Kurask => None,
                Monster::LesserDemons => None,
                Monster::LesserNagua => None,
                Monster::Lizardmen => None,
                Monster::Lizards => Some(
                    make_entry(108, 4700, None, None, false, false),
                ),
                Monster::Minotaurs => Some(
                    make_entry(44, 3800, Some(TravelItem::SkullSceptre), None, false, false),
                ),
                Monster::Mogres => None,
                Monster::Molanisks => None,
                Monster::Monkeys => Some(
                    make_entry(120, 4100, Some(TravelItem::LawRune), None, true, false),
                ),
                Monster::MossGiants => Some(
                    make_entry(22, 12_600, Some(TravelItem::GiantsoulAmulet), None, true, false),
                ),
                Monster::MutatedZygomites => None,
                Monster::Nechryael => None,
                Monster::Ogres => None,
                Monster::OtherwordlyBeings => Some(
                    make_entry(240, 14_000, Some(TravelItem::LawRune), None, true, false),
                ),
                Monster::Pyrefiends => Some(
                    make_entry(535, 15000, None, Some(Rate { numerator: 10, denominator: 1422 }), false, true),
                ),
                Monster::Rats => Some(
                    make_entry(20, 2600, Some(TravelItem::LawRune), None, false, false),
                ),
                Monster::Scorpions => Some(
                    make_entry(66, 5200, Some(TravelItem::DuelingRing), None, false, false),
                ),
                Monster::SeaSnakes => None,
                Monster::Shades => Some(
                    make_entry(70, 40_200, Some(TravelItem::SkullSceptre), None, true, false),
                ),
                Monster::ShadowWarriors => None,
                Monster::SkeletalWyverns => None,
                Monster::Skeletons => Some(
                    make_entry(100, 8100, Some(TravelItem::SkullSceptre), None, true, false),
                ),
                Monster::Sourhogs => Some(
                    make_entry(72, 8000, Some(TravelItem::SkullSceptre), None, false, false),
                ),
                Monster::Spiders => Some(
                    make_entry(76, 3000, Some(TravelItem::LawRune), None, false, false),
                ),
                Monster::SpiritualCreatures => None,
                Monster::TerrorDogs => None,
                Monster::Trolls => Some(
                    make_entry(74, 24_000, Some(TravelItem::GamesNecklace), None, true, false),
                ),
                Monster::Turoth => None,
                Monster::TzHaar => None,
                Monster::Vampyres => None,
                Monster::WarpedCreatures => None,
                Monster::Werewolves => None,
                Monster::Wolves => Some(
                    make_entry(40, 3800, Some(TravelItem::SkullSceptre), None, false, false),
                ),
                Monster::Wyrms => None,
                Monster::Zombies => Some(
                    make_entry(104, 8300, Some(TravelItem::SkullSceptre), None, true, false),
                ),
        }
    }

    /// The measured cost data, or a rough average where none was measured.
    pub fn cost_data(&self) -> (r: MonsterData)
        ensures
            r == costs_or_fallback(*self),
            r.wf(),
    {
        match self.task_data() {
            Some(d) => d,
            None => make_entry(100, 30000, None, None, false, false),
        }
    }
}

impl SlayerMaster {
    /// Time to travel to the master, in milliseconds.
    pub open spec fn travel_ms(self) -> nat {
        match self {
            SlayerMaster::Turael => 16000,
            SlayerMaster::Spria => 34000,
            SlayerMaster::Vannaka => 32000,
            SlayerMaster::Chaeldar => 49000,
        }
    }

    pub open spec fn travel_item(self) -> TravelItem {
        match self {
            SlayerMaster::Turael => TravelItem::GamesNecklace,
            SlayerMaster::Spria => TravelItem::NecklaceOfPassage,
            SlayerMaster::Vannaka => TravelItem::GiantsoulAmulet,
            SlayerMaster::Chaeldar => TravelItem::LawRune,
        }
    }

    /// Time to travel to the master, in milliseconds.
    pub fn travel_time(&self) -> (r: u64)
        ensures
            r == self.travel_ms(),
    {
        match self {
            SlayerMaster::Turael => 16000,
            SlayerMaster::Spria => 34000,
            SlayerMaster::Vannaka => 32000,
            SlayerMaster::Chaeldar => 49000,
        }
    }

    /// The charge spent to travel to the master.
    pub fn travel_cost(&self) -> (r: Supplies)
        ensures
            r == supplies_of(Some(self.travel_item())),
    {
        let item = match self {
            SlayerMaster::Turael => TravelItem::GamesNecklace,
            SlayerMaster::Spria => TravelItem::NecklaceOfPassage,
            SlayerMaster::Vannaka => TravelItem::GiantsoulAmulet,
            SlayerMaster::Chaeldar => TravelItem::LawRune,
        };
        Supplies::for_item(Some(item))
    }
}

} // verus!
