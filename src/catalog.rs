use vstd::prelude::*;

verus! {

/// Number of creature kinds; creature data is indexed densely by `Monster::index`.
pub const MONSTER_COUNT: usize = 83;

/// Number of slayer masters; per-master data is indexed densely by `SlayerMaster::index`.
pub const MASTER_COUNT: usize = 4;

/// A creature that can be given as a slayer task.
#[derive(Clone, Copy, PartialEq, Eq, Structural, Debug, Hash, PartialOrd, Ord)]
pub enum Monster {
    AberrantSpectres,
    AbyssalDemons,
    Ankous,
    Aviansie,
    Banshees,
    Basilisks,
    Bats,
    Bears,
    Birds,
    BlackDemons,
    Bloodveld,
    BlueDragons,
    BrineRats,
    CaveBugs,
    CaveCrawlers,
    CaveHorrors,
    CaveKraken,
    CaveSlimes,
    Cockatrice,
    Cows,
    Crabs,
    CrawlingHands,
    Crocodiles,
    CustodianStalker,
    Dagannoth,
    DustDevils,
    Dogs,
    Dwarves,
    Elves,
    FeverSpiders,
    FireGiants,
    FossilIslandWyverns,
    Gargoyles,
    Ghosts,
    Ghouls,
    Goblins,
    GreaterDemons,
    HarpieBugSwarms,
    Hellhounds,
    HillGiants,
    Hobgoblins,
    Icefiends,
    IceGiants,
    IceWarriors,
    InfernalMages,
    Jellies,
    JungleHorrors,
    Kalphite,
    Kurask,
    LesserDemons,
    LesserNagua,
    Lizardmen,
    Lizards,
    Minotaurs,
    Mogres,
    Molanisks,
    Monkeys,
    MossGiants,
    MutatedZygomites,
    Nechryael,
    Ogres,
    OtherwordlyBeings,
    Pyrefiends,
    Rats,
    Scorpions,
    SeaSnakes,
    Shades,
    ShadowWarriors,
    SkeletalWyverns,
    Skeletons,
    Sourhogs,
    Spiders,
    SpiritualCreatures,
    TerrorDogs,
    Trolls,
    Turoth,
    TzHaar,
    Vampyres,
    WarpedCreatures,
    Werewolves,
    Wolves,
    Wyrms,
    Zombies,
}

impl Monster {
    /// The dense position of the creature in the enumeration.
    pub open spec fn ordinal(self) -> int {
        match self {
            Monster::AberrantSpectres => 0,
            Monster::AbyssalDemons => 1,
            Monster::Ankous => 2,
            Monster::Aviansie => 3,
            Monster::Banshees => 4,
            Monster::Basilisks => 5,
            Monster::Bats => 6,
            Monster::Bears => 7,
            Monster::Birds => 8,
            Monster::BlackDemons => 9,
            Monster::Bloodveld => 10,
            Monster::BlueDragons => 11,
            Monster::BrineRats => 12,
            Monster::CaveBugs => 13,
            Monster::CaveCrawlers => 14,
            Monster::CaveHorrors => 15,
            Monster::CaveKraken => 16,
            Monster::CaveSlimes => 17,
            Monster::Cockatrice => 18,
            Monster::Cows => 19,
            Monster::Crabs => 20,
            Monster::CrawlingHands => 21,
            Monster::Crocodiles => 22,
            Monster::CustodianStalker => 23,
            Monster::Dagannoth => 24,
            Monster::DustDevils => 25,
            Monster::Dogs => 26,
            Monster::Dwarves => 27,
            Monster::Elves => 28,
            Monster::FeverSpiders => 29,
            Monster::FireGiants => 30,
            Monster::FossilIslandWyverns => 31,
            Monster::Gargoyles => 32,
            Monster::Ghosts => 33,
            Monster::Ghouls => 34,
            Monster::Goblins => 35,
            Monster::GreaterDemons => 36,
            Monster::HarpieBugSwarms => 37,
            Monster::Hellhounds => 38,
            Monster::HillGiants => 39,
            Monster::Hobgoblins => 40,
            Monster::Icefiends => 41,
            Monster::IceGiants => 42,
            Monster::IceWarriors => 43,
            Monster::InfernalMages => 44,
            Monster::Jellies => 45,
            Monster::JungleHorrors => 46,
            Monster::Kalphite => 47,
            Monster::Kurask => 48,
            Monster::LesserDemons => 49,
            Monster::LesserNagua => 50,
            Monster::Lizardmen => 51,
            Monster::Lizards => 52,
            Monster::Minotaurs => 53,
            Monster::Mogres => 54,
            Monster::Molanisks => 55,
            Monster::Monkeys => 56,
            Monster::MossGiants => 57,
            Monster::MutatedZygomites => 58,
            Monster::Nechryael => 59,
            Monster::Ogres => 60,
            Monster::OtherwordlyBeings => 61,
            Monster::Pyrefiends => 62,
            Monster::Rats => 63,
            Monster::Scorpions => 64,
            Monster::SeaSnakes => 65,
            Monster::Shades => 66,
            Monster::ShadowWarriors => 67,
            Monster::SkeletalWyverns => 68,
            Monster::Skeletons => 69,
            Monster::Sourhogs => 70,
            Monster::Spiders => 71,
            Monster::SpiritualCreatures => 72,
            Monster::TerrorDogs => 73,
            Monster::Trolls => 74,
            Monster::Turoth => 75,
            Monster::TzHaar => 76,
            Monster::Vampyres => 77,
            Monster::WarpedCreatures => 78,
            Monster::Werewolves => 79,
            Monster::Wolves => 80,
            Monster::Wyrms => 81,
            Monster::Zombies => 82,
        }
    }

    pub fn index(self) -> (r: usize)
        ensures
            r as int == self.ordinal(),
            r < MONSTER_COUNT,
    {
        match self {
            Monster::AberrantSpectres => 0,
            Monster::AbyssalDemons => 1,
            Monster::Ankous => 2,
            Monster::Aviansie => 3,
            Monster::Banshees => 4,
            Monster::Basilisks => 5,
            Monster::Bats => 6,
            Monster::Bears => 7,
            Monster::Birds => 8,
            Monster::BlackDemons => 9,
            Monster::Bloodveld => 10,
            Monster::BlueDragons => 11,
            Monster::BrineRats => 12,
            Monster::CaveBugs => 13,
            Monster::CaveCrawlers => 14,
            Monster::CaveHorrors => 15,
            Monster::CaveKraken => 16,
            Monster::CaveSlimes => 17,
            Monster::Cockatrice => 18,
            Monster::Cows => 19,
            Monster::Crabs => 20,
            Monster::CrawlingHands => 21,
            Monster::Crocodiles => 22,
            Monster::CustodianStalker => 23,
            Monster::Dagannoth => 24,
            Monster::DustDevils => 25,
            Monster::Dogs => 26,
            Monster::Dwarves => 27,
            Monster::Elves => 28,
            Monster::FeverSpiders => 29,
            Monster::FireGiants => 30,
            Monster::FossilIslandWyverns => 31,
            Monster::Gargoyles => 32,
            Monster::Ghosts => 33,
            Monster::Ghouls => 34,
            Monster::Goblins => 35,
            Monster::GreaterDemons => 36,
            Monster::HarpieBugSwarms => 37,
            Monster::Hellhounds => 38,
            Monster::HillGiants => 39,
            Monster::Hobgoblins => 40,
            Monster::Icefiends => 41,
            Monster::IceGiants => 42,
            Monster::IceWarriors => 43,
            Monster::InfernalMages => 44,
            Monster::Jellies => 45,
            Monster::JungleHorrors => 46,
            Monster::Kalphite => 47,
            Monster::Kurask => 48,
            Monster::LesserDemons => 49,
            Monster::LesserNagua => 50,
            Monster::Lizardmen => 51,
            Monster::Lizards => 52,
            Monster::Minotaurs => 53,
            Monster::Mogres => 54,
            Monster::Molanisks => 55,
            Monster::Monkeys => 56,
            Monster::MossGiants => 57,
            Monster::MutatedZygomites => 58,
            Monster::Nechryael => 59,
            Monster::Ogres => 60,
            Monster::OtherwordlyBeings => 61,
            Monster::Pyrefiends => 62,
            Monster::Rats => 63,
            Monster::Scorpions => 64,
            Monster::SeaSnakes => 65,
            Monster::Shades => 66,
            Monster::ShadowWarriors => 67,
            Monster::SkeletalWyverns => 68,
            Monster::Skeletons => 69,
            Monster::Sourhogs => 70,
            Monster::Spiders => 71,
            Monster::SpiritualCreatures => 72,
            Monster::TerrorDogs => 73,
            Monster::Trolls => 74,
            Monster::Turoth => 75,
            Monster::TzHaar => 76,
            Monster::Vampyres => 77,
            Monster::WarpedCreatures => 78,
            Monster::Werewolves => 79,
            Monster::Wolves => 80,
            Monster::Wyrms => 81,
            Monster::Zombies => 82,
        }
    }

    /// The creature at a dense position, if there is one.
    pub fn from_index(i: usize) -> (r: Option<Monster>)
        ensures
            i < MONSTER_COUNT <==> r is Some,
            r matches Some(m) ==> m.ordinal() == i && m == monster_at(i as int),
    {
        let r = match i {
            0 => Some(Monster::AberrantSpectres),
            1 => Some(Monster::AbyssalDemons),
            2 => Some(Monster::Ankous),
            3 => Some(Monster::Aviansie),
            4 => Some(Monster::Banshees),
            5 => Some(Monster::Basilisks),
            6 => Some(Monster::Bats),
            7 => Some(Monster::Bears),
            8 => Some(Monster::Birds),
            9 => Some(Monster::BlackDemons),
            10 => Some(Monster::Bloodveld),
            11 => Some(Monster::BlueDragons),
            12 => Some(Monster::BrineRats),
            13 => Some(Monster::CaveBugs),
            14 => Some(Monster::CaveCrawlers),
            15 => Some(Monster::CaveHorrors),
            16 => Some(Monster::CaveKraken),
            17 => Some(Monster::CaveSlimes),
            18 => Some(Monster::Cockatrice),
            19 => Some(Monster::Cows),
            20 => Some(Monster::Crabs),
            21 => Some(Monster::CrawlingHands),
            22 => Some(Monster::Crocodiles),
            23 => Some(Monster::CustodianStalker),
            24 => Some(Monster::Dagannoth),
            25 => Some(Monster::DustDevils),
            26 => Some(Monster::Dogs),
            27 => Some(Monster::Dwarves),
            28 => Some(Monster::Elves),
            29 => Some(Monster::FeverSpiders),
            30 => Some(Monster::FireGiants),
            31 => Some(Monster::FossilIslandWyverns),
            32 => Some(Monster::Gargoyles),
            33 => Some(Monster::Ghosts),
            34 => Some(Monster::Ghouls),
            35 => Some(Monster::Goblins),
            36 => Some(Monster::GreaterDemons),
            37 => Some(Monster::HarpieBugSwarms),
            38 => Some(Monster::Hellhounds),
            39 => Some(Monster::HillGiants),
            40 => Some(Monster::Hobgoblins),
            41 => Some(Monster::Icefiends),
            42 => Some(Monster::IceGiants),
            43 => Some(Monster::IceWarriors),
            44 => Some(Monster::InfernalMages),
            45 => Some(Monster::Jellies),
            46 => Some(Monster::JungleHorrors),
            47 => Some(Monster::Kalphite),
            48 => Some(Monster::Kurask),
            49 => Some(Monster::LesserDemons),
            50 => Some(Monster::LesserNagua),
            51 => Some(Monster::Lizardmen),
            52 => Some(Monster::Lizards),
            53 => Some(Monster::Minotaurs),
            54 => Some(Monster::Mogres),
            55 => Some(Monster::Molanisks),
            56 => Some(Monster::Monkeys),
            57 => Some(Monster::MossGiants),
            58 => Some(Monster::MutatedZygomites),
            59 => Some(Monster::Nechryael),
            60 => Some(Monster::Ogres),
            61 => Some(Monster::OtherwordlyBeings),
            62 => Some(Monster::Pyrefiends),
            63 => Some(Monster::Rats),
            64 => Some(Monster::Scorpions),
            65 => Some(Monster::SeaSnakes),
            66 => Some(Monster::Shades),
            67 => Some(Monster::ShadowWarriors),
            68 => Some(Monster::SkeletalWyverns),
            69 => Some(Monster::Skeletons),
            70 => Some(Monster::Sourhogs),
            71 => Some(Monster::Spiders),
            72 => Some(Monster::SpiritualCreatures),
            73 => Some(Monster::TerrorDogs),
            74 => Some(Monster::Trolls),
            75 => Some(Monster::Turoth),
            76 => Some(Monster::TzHaar),
            77 => Some(Monster::Vampyres),
            78 => Some(Monster::WarpedCreatures),
            79 => Some(Monster::Werewolves),
            80 => Some(Monster::Wolves),
            81 => Some(Monster::Wyrms),
            82 => Some(Monster::Zombies),
            _ => None,
        };
        proof {
            if let Some(m) = r {
                assert(m.ordinal() == i);
                lemma_monster_ordinal_injective(m, monster_at(i as int));
            }
        }
        r
    }
}

/// The creature at a dense position.
pub open spec fn monster_at(i: int) -> Monster {
    choose|m: Monster| m.ordinal() == i
}

/// Distinct creatures have distinct positions.
pub proof fn lemma_monster_ordinal_injective(a: Monster, b: Monster)
    requires
        a.ordinal() == b.ordinal(),
    ensures
        a == b,
{
}

/// A quest whose completion unlocks some assignments or masters.
#[derive(Clone, Copy, PartialEq, Eq, Structural, Debug, Hash)]
pub enum Quest {
    ActualVampyreSlayer,
    CabinFever,
    DeathPlateau,
    DeathToTheDorgeshuun,
    DesertTreasure,
    DragonSlayer,
    ElementalWorkshop,
    HauntedMine,
    HorrorFromTheDeep,
    HotStuff,
    LostCity,
    LegendsQuest,
    OlafsQuest,
    PerilousMoons,
    PorcineOfInterest,
    PriestInPeril,
    Regicide,
    ReptileGotRipped,
    RumDeal,
    ShadowsOfCustodia,
    SkippyAndTheMogres,
    RoyalTrouble,
    WarpedReality,
    WatchTheBirdie,
}

/// Number of quests.
pub const QUEST_COUNT: usize = 24;

impl Quest {
    /// The quest at a dense position, if there is one.
    pub fn from_index(i: usize) -> (r: Option<Quest>)
        ensures
            i < QUEST_COUNT <==> r is Some,
    {
        match i {
            0 => Some(Quest::ActualVampyreSlayer),
            1 => Some(Quest::CabinFever),
            2 => Some(Quest::DeathPlateau),
            3 => Some(Quest::DeathToTheDorgeshuun),
            4 => Some(Quest::DesertTreasure),
            5 => Some(Quest::DragonSlayer),
            6 => Some(Quest::ElementalWorkshop),
            7 => Some(Quest::HauntedMine),
            8 => Some(Quest::HorrorFromTheDeep),
            9 => Some(Quest::HotStuff),
            10 => Some(Quest::LostCity),
            11 => Some(Quest::LegendsQuest),
            12 => Some(Quest::OlafsQuest),
            13 => Some(Quest::PerilousMoons),
            14 => Some(Quest::PorcineOfInterest),
            15 => Some(Quest::PriestInPeril),
            16 => Some(Quest::Regicide),
            17 => Some(Quest::ReptileGotRipped),
            18 => Some(Quest::RumDeal),
            19 => Some(Quest::ShadowsOfCustodia),
            20 => Some(Quest::SkippyAndTheMogres),
            21 => Some(Quest::RoyalTrouble),
            22 => Some(Quest::WarpedReality),
            23 => Some(Quest::WatchTheBirdie),
            _ => None,
        }
    }
}

/// Which release of the game's rules the catalog describes.
#[derive(Clone, Copy, PartialEq, Eq, Structural, Debug)]
pub enum WorldState {
    Limp2024,
    Limp2025,
    Limp2026,
}

/// A slayer master: a task-giver with its own weighted assignment list.
#[derive(Clone, Copy, PartialEq, Eq, Structural, Debug, Hash, PartialOrd, Ord)]
pub enum SlayerMaster {
    Turael,
    Spria,
    Vannaka,
    Chaeldar,
}

/// Slayer points awarded per completed task before the streak multiplier.
pub open spec fn master_points(master: SlayerMaster, era: WorldState) -> nat {
    match master {
        SlayerMaster::Turael => 0,
        SlayerMaster::Spria => 0,
        SlayerMaster::Vannaka => if era == WorldState::Limp2026 { 8 } else { 4 },
        SlayerMaster::Chaeldar => 10,
    }
}

impl SlayerMaster {
    pub open spec fn ordinal(self) -> int {
        match self {
            SlayerMaster::Turael => 0,
            SlayerMaster::Spria => 1,
            SlayerMaster::Vannaka => 2,
            SlayerMaster::Chaeldar => 3,
        }
    }

    pub fn index(self) -> (r: usize)
        ensures
            r as int == self.ordinal(),
            r < MASTER_COUNT,
    {
        match self {
            SlayerMaster::Turael => 0,
            SlayerMaster::Spria => 1,
            SlayerMaster::Vannaka => 2,
            SlayerMaster::Chaeldar => 3,
        }
    }

    /// The master at a dense position.
    pub open spec fn at(i: int) -> SlayerMaster {
        if i == 0 {
            SlayerMaster::Turael
        } else if i == 1 {
            SlayerMaster::Spria
        } else if i == 2 {
            SlayerMaster::Vannaka
        } else {
            SlayerMaster::Chaeldar
        }
    }

    /// The master at a dense position below `MASTER_COUNT`.
    pub fn from_index(i: usize) -> (r: SlayerMaster)
        requires
            i < MASTER_COUNT,
        ensures
            r == SlayerMaster::at(i as int),
            r.ordinal() == i,
    {
        if i == 0 {
            SlayerMaster::Turael
        } else if i == 1 {
            SlayerMaster::Spria
        } else if i == 2 {
            SlayerMaster::Vannaka
        } else {
            SlayerMaster::Chaeldar
        }
    }

    /// Points per completed task (before the streak multiplier) in the given era.
    pub fn slayer_points(&self, era: WorldState) -> (r: u32)
        ensures
            r == master_points(*self, era),
    {
        match self {
            SlayerMaster::Turael => 0,
            SlayerMaster::Spria => 0,
            SlayerMaster::Vannaka => match era {
                WorldState::Limp2024 => 4,
                WorldState::Limp2025 => 4,
                WorldState::Limp2026 => 8,
            },
            SlayerMaster::Chaeldar => 10,
        }
    }

    /// The master's weighted assignment list.
    pub fn assignments<'a>(&self, catalog: &'a Catalog) -> (r: &'a Vec<Assignment>)
        ensures
            r@ == catalog.offerings(*self),
    {
        match self {
            SlayerMaster::Turael => &catalog.turael,
            SlayerMaster::Spria => &catalog.spria,
            SlayerMaster::Vannaka => &catalog.vannaka,
            SlayerMaster::Chaeldar => &catalog.chaeldar,
        }
    }

    /// Whether any entry of the master's list names `monster`, whatever its gates.
    pub fn can_assign(self, catalog: &Catalog, monster: Monster) -> (r: bool)
        ensures
            r == offers(catalog.offerings(self), monster),
    {
        let list = self.assignments(catalog);
        let mut i: usize = 0;
        while i < list.len()
            invariant
                list@ == catalog.offerings(self),
                i <= list.len(),
                forall|j: int| 0 <= j < i ==> list@[j].monster != monster,
            decreases list.len() - i,
        {
            if list[i].monster == monster {
                return true;
            }
            i = i + 1;
        }
        false
    }
}

/// Whether some entry of an assignment list names `monster`.
pub open spec fn offers(list: Seq<Assignment>, monster: Monster) -> bool {
    exists|j: int| 0 <= j < list.len() && list[j].monster == monster
}

/// One entry of a master's list: a creature, an inclusive amount range, a
/// quest gate and a selection weight.
#[derive(Clone, Copy, PartialEq, Eq, Structural, Debug)]
pub struct Assignment {
    pub monster: Monster,
    pub amount_min: u32,
    pub amount_max: u32,
    pub quest_requirement: Option<Quest>,
    pub weight: u32,
}

/// What the catalog knows of a creature.
#[derive(Clone, Copy, PartialEq, Eq, Structural, Debug)]
pub struct MonsterInfo {
    /// Slayer level needed to be assigned the creature.
    pub slayer_req: u8,
    /// Slayer experience granted per kill.
    pub slayer_exp: u32,
    /// Whether the character can kill it at all with the means in scope.
    pub melee_killable: bool,
}

/// The read-only game tables that the simulation consults.
pub struct Catalog {
    pub era: WorldState,
    pub turael: Vec<Assignment>,
    pub spria: Vec<Assignment>,
    pub vannaka: Vec<Assignment>,
    pub chaeldar: Vec<Assignment>,
    /// Indexed by `Monster::index`.
    pub monsters: Vec<MonsterInfo>,
    /// Ascending experience thresholds; the level is how many are reached.
    pub level_thresholds: Vec<u32>,
}

/// Sum of the weights of a list of assignments.
pub open spec fn total_weight(list: Seq<Assignment>) -> nat
    decreases list.len(),
{
    if list.len() == 0 {
        0
    } else {
        total_weight(list.drop_last()) + list.last().weight as nat
    }
}

/// How many thresholds `exp` has reached.
pub open spec fn level_of(thresholds: Seq<u32>, exp: u32) -> nat
    decreases thresholds.len(),
{
    if thresholds.len() == 0 {
        0
    } else {
        level_of(thresholds.drop_last(), exp) + if thresholds.last() <= exp { 1nat } else { 0nat }
    }
}

pub open spec fn list_wf(list: Seq<Assignment>) -> bool {
    &&& total_weight(list) <= u32::MAX
    &&& forall|j: int| 0 <= j < list.len() ==> list[j].amount_min <= list[j].amount_max
}

impl Catalog {
    pub open spec fn offerings(&self, master: SlayerMaster) -> Seq<Assignment> {
        match master {
            SlayerMaster::Turael => self.turael@,
            SlayerMaster::Spria => self.spria@,
            SlayerMaster::Vannaka => self.vannaka@,
            SlayerMaster::Chaeldar => self.chaeldar@,
        }
    }

    pub open spec fn info(&self, monster: Monster) -> MonsterInfo {
        self.monsters@[monster.ordinal()]
    }

    pub open spec fn level(&self, exp: u32) -> nat {
        level_of(self.level_thresholds@, exp)
    }

    /// Well-formed: one entry per creature, at most 255 levels, and every
    /// assignment list with non-empty amount ranges and a total weight that fits `u32`.
    pub open spec fn wf(&self) -> bool {
        &&& self.monsters.len() == MONSTER_COUNT
        &&& self.level_thresholds.len() <= 255
        &&& forall|m: SlayerMaster| #[trigger] list_wf(self.offerings(m))
    }

    /// Whether the catalog is well-formed.
    pub fn check(&self) -> (r: bool)
        ensures
            r == self.wf(),
    {
        let ok = self.monsters.len() == MONSTER_COUNT && self.level_thresholds.len() <= 255
            && list_ok(&self.turael) && list_ok(&self.spria) && list_ok(&self.vannaka) && list_ok(
            &self.chaeldar,
        );
        proof {
            if ok {
                assert forall|m: SlayerMaster| #[trigger] list_wf(self.offerings(m)) by {
                    match m {
                        SlayerMaster::Turael => {},
                        SlayerMaster::Spria => {},
                        SlayerMaster::Vannaka => {},
                        SlayerMaster::Chaeldar => {},
                    }
                }
            } else if self.monsters.len() == MONSTER_COUNT && self.level_thresholds.len() <= 255 {
                if !list_wf(self.turael@) {
                    assert(!list_wf(self.offerings(SlayerMaster::Turael)));
                } else if !list_wf(self.spria@) {
                    assert(!list_wf(self.offerings(SlayerMaster::Spria)));
                } else if !list_wf(self.vannaka@) {
                    assert(!list_wf(self.offerings(SlayerMaster::Vannaka)));
                } else {
                    assert(!list_wf(self.offerings(SlayerMaster::Chaeldar)));
                }
            }
        }
        ok
    }

    /// The catalog entry of a creature.
    pub fn monster_info(&self, monster: Monster) -> (r: MonsterInfo)
        requires
            self.wf(),
        ensures
            r == self.info(monster),
    {
        self.monsters[monster.index()]
    }

    /// The level reached with `exp` experience.
    pub fn level_for_exp(&self, exp: u32) -> (r: u8)
        requires
            self.wf(),
        ensures
            r as nat == self.level(exp),
    {
        let t = &self.level_thresholds;
        let mut n: u8 = 0;
        let mut i: usize = 0;
        while i < t.len()
            invariant
                t@ == self.level_thresholds@,
                t.len() <= 255,
                i <= t.len(),
                n as nat == level_of(t@.subrange(0, i as int), exp),
                n <= i,
            decreases t.len() - i,
        {
            proof {
                lemma_level_of_step(t@, i as int, exp);
            }
            if t[i] <= exp {
                n = n + 1;
            }
            i = i + 1;
        }
        proof {
            assert(t@.subrange(0, t.len() as int) == t@);
        }
        n
    }
}

proof fn lemma_total_weight_prefix(list: Seq<Assignment>, i: int)
    requires
        0 <= i <= list.len(),
    ensures
        total_weight(list.take(i)) <= total_weight(list),
    decreases list.len() - i,
{
    if i < list.len() {
        lemma_total_weight_prefix(list, i + 1);
        assert(list.take(i + 1).drop_last() == list.take(i));
    } else {
        assert(list.take(i) == list);
    }
}

fn list_ok(list: &Vec<Assignment>) -> (r: bool)
    ensures
        r == list_wf(list@),
{
    let mut sum: u64 = 0;
    let mut i: usize = 0;
    while i < list.len()
        invariant
            i <= list.len(),
            sum == total_weight(list@.take(i as int)),
            sum <= u32::MAX,
            forall|j: int| 0 <= j < i ==> list@[j].amount_min <= list@[j].amount_max,
        decreases list.len() - i,
    {
        assert(list@.take(i + 1).drop_last() == list@.take(i as int));
        if list[i].amount_min > list[i].amount_max {
            return false;
        }
        sum = sum + list[i].weight as u64;
        if sum > u32::MAX as u64 {
            proof {
                lemma_total_weight_prefix(list@, i + 1);
            }
            return false;
        }
        i = i + 1;
    }
    assert(list@.take(list.len() as int) == list@);
    true
}

proof fn lemma_level_of_step(t: Seq<u32>, i: int, exp: u32)
    requires
        0 <= i < t.len(),
    ensures
        level_of(t.subrange(0, i + 1), exp) == level_of(t.subrange(0, i), exp) + if t[i] <= exp { 1nat } else { 0nat },
{
    assert(t.subrange(0, i + 1).drop_last() == t.subrange(0, i));
}

/// More experience never gives a lower level.
pub proof fn lemma_level_monotonic(thresholds: Seq<u32>, a: u32, b: u32)
    requires
        a <= b,
    ensures
        level_of(thresholds, a) <= level_of(thresholds, b),
    decreases thresholds.len(),
{
    if thresholds.len() > 0 {
        lemma_level_monotonic(thresholds.drop_last(), a, b);
    }
}

} // verus!
