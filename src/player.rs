use vstd::prelude::*;

use crate::catalog::{Assignment, Catalog, Quest};

verus! {

/// The character's progression: experience and its level, finished quests,
/// and whether task storage has been unlocked.
#[derive(Clone, Debug)]
pub struct PlayerState {
    pub slayer_exp: u32,
    pub slayer_level: u8,
    pub quests_done: Vec<Quest>,
    pub storage_unlocked: bool,
}

impl PlayerState {
    /// The level is the one the catalog gives for the experience.
    pub open spec fn wf(&self, catalog: &Catalog) -> bool {
        self.slayer_level as nat == catalog.level(self.slayer_exp)
    }

    pub open spec fn has_quest(&self, q: Quest) -> bool {
        self.quests_done@.contains(q)
    }

    /// Whether the level and quest gates of an assignment are met.
    pub open spec fn receives(&self, catalog: &Catalog, a: Assignment) -> bool {
        &&& self.slayer_level >= catalog.info(a.monster).slayer_req
        &&& (a.quest_requirement matches Some(q) ==> self.has_quest(q))
    }

    pub fn new(catalog: &Catalog, slayer_exp: u32, quests_done: Vec<Quest>, storage_unlocked: bool) -> (r: PlayerState)
        requires
            catalog.wf(),
        ensures
            r.wf(catalog),
            r == (PlayerState {
                slayer_exp,
                slayer_level: catalog.level(slayer_exp) as u8,
                quests_done,
                storage_unlocked,
            }),
    {
        PlayerState {
            slayer_exp,
            slayer_level: catalog.level_for_exp(slayer_exp),
            quests_done,
            storage_unlocked,
        }
    }

    pub fn slayer_level(&self) -> (r: u8)
        ensures
            r == self.slayer_level,
    {
        self.slayer_level
    }

    /// Whether `q` has been finished.
    pub fn quest_done(&self, q: Quest) -> (r: bool)
        ensures
            r == self.has_quest(q),
    {
        let mut i: usize = 0;
        while i < self.quests_done.len()
            invariant
                i <= self.quests_done.len(),
                forall|j: int| 0 <= j < i ==> self.quests_done@[j] != q,
            decreases self.quests_done.len() - i,
        {
            if self.quests_done[i] == q {
                return true;
            }
            i = i + 1;
        }
        false
    }

    pub fn can_receive_assignment(&self, catalog: &Catalog, assignment: &Assignment) -> (r: bool)
        requires
            catalog.wf(),
        ensures
            r == self.receives(catalog, *assignment),
    {
        if self.slayer_level < catalog.monster_info(assignment.monster).slayer_req {
            return false;
        }
        match assignment.quest_requirement {
            None => true,
            Some(q) => self.quest_done(q),
        }
    }
}

} // verus!
