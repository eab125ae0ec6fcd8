use rand::rngs::SmallRng;
use vstd::prelude::*;

use crate::costs::{no_drops, MonsterData, SlayerDrops};
use crate::random::roll;

verus! {

/// What killing the creatures of one task produced.
#[derive(Clone, Copy, PartialEq, Eq, Structural, Debug)]
pub struct KillTally {
    pub kills: u64,
    pub exp: u128,
    pub slaughter_charges: u64,
    pub expeditious_charges: u64,
    /// Superiors that appeared.
    pub superiors: u64,
    pub drops: SlayerDrops,
    /// The task was cut off at `kill_limit` kills with kills still owed.
    pub cut_off: bool,
}

/// The rolls made for one kill. Each is a uniform draw: `slaughter` and
/// `expeditious` in `[0, 4)`, `superior` in `[0, 200)`, `unique` and
/// `gem_gate` in `[0, denominator)` of the creature's superior rate,
/// `unique_kind` in `[0, 2286)` and `gem` in `[0, 8)`. A roll whose effect
/// does not apply is not drawn and does not matter.
#[derive(Clone, Copy, PartialEq, Eq, Structural, Debug)]
pub struct KillRolls {
    pub slaughter: u32,
    pub expeditious: u32,
    pub superior: u32,
    pub unique: u32,
    pub unique_kind: u32,
    pub gem_gate: u32,
    pub gem: u32,
}

pub open spec fn zero_tally() -> KillTally {
    KillTally {
        kills: 0,
        exp: 0,
        slaughter_charges: 0,
        expeditious_charges: 0,
        superiors: 0,
        drops: no_drops(),
        cut_off: false,
    }
}

/// The tally of `amount` plain kills: no bracelet effects, no superiors.
pub open spec fn batch_tally(amount: u32, exp_per_kill: u32) -> KillTally {
    KillTally {
        kills: amount as u64,
        exp: (amount * exp_per_kill) as u128,
        slaughter_charges: 0,
        expeditious_charges: 0,
        superiors: 0,
        drops: no_drops(),
        cut_off: false,
    }
}

/// Kills that the kill-by-kill simulation of a task of `amount` may take at
/// most; a run that would go on longer is cut off there and says so.
pub open spec fn kill_limit(amount: u32) -> nat {
    (4 * amount + 1000) as nat
}

/// Experience matches the kills; charges and superiors are at most one per
/// kill; each superior gives at most one main unique and one gem.
pub open spec fn tally_wf(t: KillTally, exp_per_kill: u32) -> bool {
    &&& t.exp == t.kills * exp_per_kill
    &&& t.slaughter_charges <= t.kills
    &&& t.expeditious_charges <= t.kills
    &&& t.superiors <= t.kills
    &&& t.drops.dust_battlestaff + t.drops.mist_battlestaff + t.drops.imbued_heart <= t.superiors
    &&& t.drops.eternal_gem <= t.superiors
}

/// `amount` plus refunded kills, minus extra kills, minus kills and
/// superiors: what is still owed if nothing was lost to the floor at zero.
pub open spec fn owed(amount: u32, t: KillTally) -> int {
    amount + t.slaughter_charges - t.expeditious_charges - t.kills - t.superiors
}

/// What holds of every tally that `run_kills` can return. Unless cut off,
/// the kills equal the amount plus refunds minus extra kills and superiors,
/// up to one kill (two with superiors) counted against an already empty
/// remainder.
pub open spec fn possible_tally(data: MonsterData, amount: u32, exp_per_kill: u32, r: KillTally) -> bool {
    &&& !data.per_kill() ==> r == batch_tally(amount, exp_per_kill)
    &&& tally_wf(r, exp_per_kill)
    &&& r.kills <= kill_limit(amount)
    &&& r.cut_off ==> r.kills == kill_limit(amount)
    &&& !r.cut_off ==> -2 <= owed(amount, r) <= 0
    &&& data.superior_unique_drop_rate is None ==> r.superiors == 0 && r.drops == no_drops() && (!r.cut_off
        ==> -1 <= owed(amount, r) <= 0)
    &&& !data.use_bracelet_of_slaughter ==> r.slaughter_charges == 0
    &&& !data.use_expeditious_bracelet ==> r.expeditious_charges == 0
}

pub open spec fn floor_dec(x: int) -> int {
    if x > 0 {
        x - 1
    } else {
        0
    }
}

pub open spec fn flag(b: bool) -> int {
    if b {
        1
    } else {
        0
    }
}

/// One kill with the given rolls, from `left` kills owed: the kill is
/// counted with its experience; a bracelet of slaughter, if worn, refunds
/// it on a slaughter roll of 0; an expeditious bracelet, if worn, counts an
/// extra kill on an expeditious roll of 0; for a creature with a superior
/// rate `p`, a superior roll of 0 brings a superior, which counts as one more
/// kill, gives a main unique on a unique roll below `p` (dust battlestaff,
/// mist battlestaff or imbued heart by its kind roll, split at 1000 and 2000
/// of 2286) and, independently, an eternal gem where its gate roll is below
/// `2p` and its gem roll is 0. The owed kills never go below zero.
pub open spec fn kill_step_spec(data: MonsterData, exp_per_kill: u32, left: u64, t: KillTally, r: KillRolls) -> (u64, KillTally) {
    let refund = data.use_bracelet_of_slaughter && r.slaughter == 0;
    let extra = data.use_expeditious_bracelet && r.expeditious == 0;
    let sup = data.superior_unique_drop_rate is Some && r.superior == 0;
    let rate = data.superior_unique_drop_rate->Some_0;
    let unique = sup && r.unique < rate.numerator;
    let gem = sup && r.gem_gate < 2 * rate.numerator && r.gem == 0;
    let l1 = left + flag(refund) - flag(extra);
    let l2 = if sup {
        floor_dec(l1)
    } else {
        l1
    };
    (
        floor_dec(l2) as u64,
        KillTally {
            kills: (t.kills + 1) as u64,
            exp: (t.exp + exp_per_kill) as u128,
            slaughter_charges: (t.slaughter_charges + flag(refund)) as u64,
            expeditious_charges: (t.expeditious_charges + flag(extra)) as u64,
            superiors: (t.superiors + flag(sup)) as u64,
            drops: SlayerDrops {
                dust_battlestaff: (t.drops.dust_battlestaff + flag(unique && r.unique_kind < 1000)) as u64,
                mist_battlestaff: (t.drops.mist_battlestaff + flag(
                    unique && 1000 <= r.unique_kind && r.unique_kind < 2000,
                )) as u64,
                imbued_heart: (t.drops.imbued_heart + flag(unique && r.unique_kind >= 2000)) as u64,
                eternal_gem: (t.drops.eternal_gem + flag(gem)) as u64,
            },
            cut_off: t.cut_off,
        },
    )
}

/// Bound on kills below which a step cannot overflow.
pub const STEP_BOUND: u64 = 0x1_0000_0000_0000;

/// One kill with the given rolls; see `kill_step_spec`.
pub fn kill_step(data: &MonsterData, exp_per_kill: u32, left: u64, t: KillTally, r: KillRolls) -> (res: (u64, KillTally))
    requires
        tally_wf(t, exp_per_kill),
        t.kills < STEP_BOUND,
        left < STEP_BOUND,
    ensures
        res == kill_step_spec(*data, exp_per_kill, left, t, r),
        tally_wf(res.1, exp_per_kill),
{
    let refund = data.use_bracelet_of_slaughter && r.slaughter == 0;
    let extra = data.use_expeditious_bracelet && r.expeditious == 0;
    let mut l: u64 = left;
    let mut n = t;
    assert((t.kills + 1) * exp_per_kill == t.kills * exp_per_kill + exp_per_kill) by (nonlinear_arith);
    assert(t.kills * exp_per_kill <= STEP_BOUND * u32::MAX) by (nonlinear_arith)
        requires
            t.kills < STEP_BOUND,
    ;
    n.kills = t.kills + 1;
    n.exp = t.exp + exp_per_kill as u128;
    if refund {
        n.slaughter_charges = t.slaughter_charges + 1;
        l = l + 1;
    }
    if extra {
        n.expeditious_charges = t.expeditious_charges + 1;
        l = l.saturating_sub(1);
    }
    if let Some(rate) = data.superior_unique_drop_rate {
        if r.superior == 0 {
            n.superiors = t.superiors + 1;
            l = l.saturating_sub(1);
            if r.unique < rate.numerator {
                if r.unique_kind < 1000 {
                    n.drops.dust_battlestaff = t.drops.dust_battlestaff + 1;
                } else if r.unique_kind < 2000 {
                    n.drops.mist_battlestaff = t.drops.mist_battlestaff + 1;
                } else {
                    n.drops.imbued_heart = t.drops.imbued_heart + 1;
                }
            }
            if (r.gem_gate as u64) < 2 * (rate.numerator as u64) && r.gem == 0 {
                n.drops.eternal_gem = t.drops.eternal_gem + 1;
            }
        }
    }
    l = l.saturating_sub(1);
    (l, n)
}

/// All kills of a task in one step.
pub fn batch_kills(amount: u32, exp_per_kill: u32) -> (r: KillTally)
    ensures
        r == batch_tally(amount, exp_per_kill),
        tally_wf(r, exp_per_kill),
{
    assert((amount as u128) * (exp_per_kill as u128) <= u32::MAX as u128 * u32::MAX as u128) by (nonlinear_arith);
    KillTally {
        kills: amount as u64,
        exp: (amount as u128) * (exp_per_kill as u128),
        slaughter_charges: 0,
        expeditious_charges: 0,
        superiors: 0,
        drops: SlayerDrops::default(),
        cut_off: false,
    }
}

/// Draws the rolls of one kill, only those whose effect applies, bracelet
/// rolls before the superior roll; the others are left at a value that has
/// no effect.
fn draw_rolls(rng: &mut SmallRng, data: &MonsterData) -> (r: KillRolls)
    requires
        data.wf(),
    ensures
        !data.use_bracelet_of_slaughter ==> r.slaughter != 0,
        !data.use_expeditious_bracelet ==> r.expeditious != 0,
        data.superior_unique_drop_rate is None ==> r.superior != 0,
{
    let slaughter = if data.use_bracelet_of_slaughter { roll(rng, 4) } else { 1 };
    let expeditious = if data.use_expeditious_bracelet { roll(rng, 4) } else { 1 };
    let mut r = KillRolls { slaughter, expeditious, superior: 1, unique: 0, unique_kind: 0, gem_gate: 0, gem: 1 };
    if let Some(rate) = data.superior_unique_drop_rate {
        r.superior = roll(rng, 200);
        if r.superior == 0 {
            r.unique = roll(rng, rate.denominator);
            if r.unique < rate.numerator {
                r.unique_kind = roll(rng, 2286);
            }
            r.gem_gate = roll(rng, rate.denominator);
            if (r.gem_gate as u64) < 2 * (rate.numerator as u64) {
                r.gem = roll(rng, 8);
            }
        }
    }
    r
}

/// Simulates a task kill by kill with `kill_step`, drawing each kill's
/// rolls, until no kills are owed or `kill_limit` kills were made. With no
/// per-kill effect the result is that of `batch_kills`.
pub fn run_kills(rng: &mut SmallRng, data: &MonsterData, amount: u32, exp_per_kill: u32) -> (r: KillTally)
    requires
        data.wf(),
    ensures
        possible_tally(*data, amount, exp_per_kill, r),
{
    let limit: u64 = 4 * (amount as u64) + 1000;
    let mut left: u64 = amount as u64;
    let mut t = KillTally {
        kills: 0,
        exp: 0,
        slaughter_charges: 0,
        expeditious_charges: 0,
        superiors: 0,
        drops: SlayerDrops::default(),
        cut_off: false,
    };
    while left > 0 && t.kills < limit
        invariant
            data.wf(),
            limit == kill_limit(amount),
            t.kills <= limit,
            !t.cut_off,
            tally_wf(t, exp_per_kill),
            left <= amount + t.kills,
            left > 0 ==> left == owed(amount, t),
            left == 0 ==> -2 <= owed(amount, t) <= 0,
            data.superior_unique_drop_rate is None ==> t.superiors == 0 && t.drops == no_drops() && (left == 0
                ==> -1 <= owed(amount, t) <= 0),
            !data.per_kill() ==> left == amount - t.kills && t.slaughter_charges == 0 && t.expeditious_charges == 0,
            !data.use_bracelet_of_slaughter ==> t.slaughter_charges == 0,
            !data.use_expeditious_bracelet ==> t.expeditious_charges == 0,
        decreases limit - t.kills,
    {
        let rolls = draw_rolls(rng, data);
        let (l, n) = kill_step(data, exp_per_kill, left, t, rolls);
        left = l;
        t = n;
    }
    if left > 0 {
        t.cut_off = true;
    }
    proof {
        if !data.per_kill() {
            assert(t.kills == amount);
            assert(t.exp == amount * exp_per_kill);
            assert(t == batch_tally(amount, exp_per_kill));
        }
    }
    t
}

} // verus!
