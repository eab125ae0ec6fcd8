use vstd::prelude::*;

use crate::catalog::Monster;
use crate::costs::{SlayerDrops, Supplies};
use crate::driver::{RunOutcome, RunResult};
use vstd::relations::{sorted_by, total_ordering};
use vstd::seq_lib::lemma_sorted_unique;

verus! {

broadcast use vstd::seq_lib::group_to_multiset_ensures;

/// What the aggregator keeps of one run.
#[derive(Clone, Copy, PartialEq, Eq, Structural, Debug)]
pub struct RunRecord {
    pub outcome: RunOutcome,
    pub tasks: u128,
    pub min_points: u128,
    pub total_points: u128,
    pub end_points: u128,
    pub max_points: u128,
    pub time_ms: u128,
    pub supplies: Supplies,
    pub drops: SlayerDrops,
    pub cave_crawler_kills: u64,
}

impl RunRecord {
    /// The record of a finished run.
    pub fn of_run(res: &RunResult) -> (r: RunRecord)
        requires
            res.state.wf(),
        ensures
            r.outcome == res.outcome,
            r.tasks == res.state.slayer_data@.tasks_started_total(),
            r.min_points == res.state.slayer_data.min_points,
            r.total_points == res.state.slayer_data.total_points,
            r.end_points == res.state.points,
            r.max_points == res.state.slayer_data.max_points,
            r.time_ms == res.state.slayer_data@.time_ms(),
            r.supplies == res.state.slayer_data.supplies_used,
            r.drops == res.state.slayer_data.drops,
            r.cave_crawler_kills == res.state.slayer_data.total_kills@[Monster::CaveCrawlers.ordinal()],
    {
        let d = &res.state.slayer_data;
        RunRecord {
            outcome: res.outcome,
            tasks: d.tasks_started(),
            min_points: d.min_points as u128,
            total_points: d.total_points as u128,
            end_points: res.state.points as u128,
            max_points: d.max_points as u128,
            time_ms: d.time_spent(),
            supplies: d.supplies_used,
            drops: d.drops,
            cave_crawler_kills: d.total_kills[Monster::CaveCrawlers.index()],
        }
    }
}

/// Smallest, median (the element at half the length, rounded down, in
/// sorted order) and largest of a group of values; all zero for none.
#[derive(Clone, Copy, PartialEq, Eq, Structural, Debug)]
pub struct OrderStats {
    pub count: u64,
    pub min: u128,
    pub median: u128,
    pub max: u128,
}

/// Order statistics of task count, points and time over one outcome's runs.
#[derive(Clone, Copy, PartialEq, Eq, Structural, Debug)]
pub struct GroupStats {
    pub tasks: OrderStats,
    pub min_points: OrderStats,
    pub total_points: OrderStats,
    pub end_points: OrderStats,
    pub max_points: OrderStats,
    pub time_ms: OrderStats,
}

/// The reduction of all replications.
#[derive(Clone, Copy, PartialEq, Eq, Structural, Debug)]
pub struct Report {
    pub runs: u64,
    pub successes: u64,
    pub failures: u64,
    pub step_limited: u64,
    pub tasks_received: u128,
    /// Total elapsed time of the successful runs, for their average.
    pub success_time_ms: u128,
    pub success: GroupStats,
    pub failure: GroupStats,
    pub all_supplies: Supplies,
    pub all_drops: SlayerDrops,
    pub cave_crawlers_killed: u64,
}

pub open spec fn leq(x: u128, y: u128) -> bool {
    x <= y
}

/// A per-run quantity that the report sums.
#[derive(Clone, Copy, PartialEq, Eq, Structural, Debug)]
pub enum Measure {
    /// One for each run with this outcome.
    Runs(RunOutcome),
    Tasks,
    /// Elapsed time of successful runs, nothing for the others.
    SuccessTimeMs,
    ExpeditiousCharges,
    SlaughterCharges,
    GamesNecklaceCharges,
    DuelingRingCharges,
    PassageCharges,
    ChronicleCharges,
    SkullSceptreCharges,
    GiantsoulCharges,
    LawRunes,
    DustBattlestaffs,
    MistBattlestaffs,
    ImbuedHearts,
    EternalGems,
    CaveCrawlerKills,
}

pub open spec fn measure(r: RunRecord, m: Measure) -> nat {
    match m {
        Measure::Runs(o) => if r.outcome == o { 1 } else { 0 },
        Measure::Tasks => r.tasks as nat,
        Measure::SuccessTimeMs => if r.outcome == RunOutcome::Success { r.time_ms as nat } else { 0 },
        Measure::ExpeditiousCharges => r.supplies.expeditious_bracelet_charges as nat,
        Measure::SlaughterCharges => r.supplies.bracelet_of_slaughter_charges as nat,
        Measure::GamesNecklaceCharges => r.supplies.games_necklace_charges as nat,
        Measure::DuelingRingCharges => r.supplies.dueling_ring_charges as nat,
        Measure::PassageCharges => r.supplies.necklace_of_passage_charges as nat,
        Measure::ChronicleCharges => r.supplies.chronicle_charges as nat,
        Measure::SkullSceptreCharges => r.supplies.skull_sceptre_charges as nat,
        Measure::GiantsoulCharges => r.supplies.giantsoul_amulet_charges as nat,
        Measure::LawRunes => r.supplies.law_runes as nat,
        Measure::DustBattlestaffs => r.drops.dust_battlestaff as nat,
        Measure::MistBattlestaffs => r.drops.mist_battlestaff as nat,
        Measure::ImbuedHearts => r.drops.imbued_heart as nat,
        Measure::EternalGems => r.drops.eternal_gem as nat,
        Measure::CaveCrawlerKills => r.cave_crawler_kills as nat,
    }
}

/// A per-run value of which the report gives order statistics.
#[derive(Clone, Copy, PartialEq, Eq, Structural, Debug)]
pub enum Stat {
    Tasks,
    MinPoints,
    TotalPoints,
    EndPoints,
    MaxPoints,
    TimeMs,
}

pub open spec fn stat(r: RunRecord, k: Stat) -> u128 {
    match k {
        Stat::Tasks => r.tasks,
        Stat::MinPoints => r.min_points,
        Stat::TotalPoints => r.total_points,
        Stat::EndPoints => r.end_points,
        Stat::MaxPoints => r.max_points,
        Stat::TimeMs => r.time_ms,
    }
}

/// Sum of a measure over the records.
pub open spec fn total(s: Seq<RunRecord>, m: Measure) -> nat
    decreases s.len(),
{
    if s.len() == 0 {
        0
    } else {
        total(s.drop_last(), m) + measure(s.last(), m)
    }
}

/// A value of the records with outcome `o`, in order.
pub open spec fn values_where(s: Seq<RunRecord>, o: RunOutcome, k: Stat) -> Seq<u128>
    decreases s.len(),
{
    if s.len() == 0 {
        Seq::empty()
    } else if s.last().outcome == o {
        values_where(s.drop_last(), o, k).push(stat(s.last(), k))
    } else {
        values_where(s.drop_last(), o, k)
    }
}

pub open spec fn cap64(x: nat) -> u64 {
    if x > u64::MAX {
        u64::MAX
    } else {
        x as u64
    }
}

pub open spec fn cap128(x: nat) -> u128 {
    if x > u128::MAX {
        u128::MAX
    } else {
        x as u128
    }
}

pub open spec fn stats_of(values: Seq<u128>) -> OrderStats {
    let s = values.sort_by(|x: u128, y: u128| leq(x, y));
    if s.len() == 0 {
        OrderStats { count: 0, min: 0, median: 0, max: 0 }
    } else {
        OrderStats { count: cap64(s.len()), min: s[0], median: s[s.len() as int / 2], max: s.last() }
    }
}

pub open spec fn group_of(s: Seq<RunRecord>, o: RunOutcome) -> GroupStats {
    GroupStats {
        tasks: stats_of(values_where(s, o, Stat::Tasks)),
        min_points: stats_of(values_where(s, o, Stat::MinPoints)),
        total_points: stats_of(values_where(s, o, Stat::TotalPoints)),
        end_points: stats_of(values_where(s, o, Stat::EndPoints)),
        max_points: stats_of(values_where(s, o, Stat::MaxPoints)),
        time_ms: stats_of(values_where(s, o, Stat::TimeMs)),
    }
}

pub open spec fn supplies_total(s: Seq<RunRecord>) -> Supplies {
    Supplies {
        expeditious_bracelet_charges: cap64(total(s, Measure::ExpeditiousCharges)),
        bracelet_of_slaughter_charges: cap64(total(s, Measure::SlaughterCharges)),
        games_necklace_charges: cap64(total(s, Measure::GamesNecklaceCharges)),
        dueling_ring_charges: cap64(total(s, Measure::DuelingRingCharges)),
        necklace_of_passage_charges: cap64(total(s, Measure::PassageCharges)),
        chronicle_charges: cap64(total(s, Measure::ChronicleCharges)),
        skull_sceptre_charges: cap64(total(s, Measure::SkullSceptreCharges)),
        giantsoul_amulet_charges: cap64(total(s, Measure::GiantsoulCharges)),
        law_runes: cap64(total(s, Measure::LawRunes)),
    }
}

pub open spec fn drops_total(s: Seq<RunRecord>) -> SlayerDrops {
    SlayerDrops {
        dust_battlestaff: cap64(total(s, Measure::DustBattlestaffs)),
        mist_battlestaff: cap64(total(s, Measure::MistBattlestaffs)),
        imbued_heart: cap64(total(s, Measure::ImbuedHearts)),
        eternal_gem: cap64(total(s, Measure::EternalGems)),
    }
}

/// The report of a list of run records: counts per outcome, order
/// statistics per outcome, and totals (each saturating at its type's maximum).
pub open spec fn report_of(s: Seq<RunRecord>) -> Report {
    Report {
        runs: cap64(s.len()),
        successes: cap64(total(s, Measure::Runs(RunOutcome::Success))),
        failures: cap64(total(s, Measure::Runs(RunOutcome::Failure))),
        step_limited: cap64(total(s, Measure::Runs(RunOutcome::StepLimit))),
        tasks_received: cap128(total(s, Measure::Tasks)),
        success_time_ms: cap128(total(s, Measure::SuccessTimeMs)),
        success: group_of(s, RunOutcome::Success),
        failure: group_of(s, RunOutcome::Failure),
        all_supplies: supplies_total(s),
        all_drops: drops_total(s),
        cave_crawlers_killed: cap64(total(s, Measure::CaveCrawlerKills)),
    }
}

proof fn lemma_leq_total_ordering()
    ensures
        total_ordering(|x: u128, y: u128| leq(x, y)),
{
}

pub open spec fn ascending(s: Seq<u128>) -> bool {
    forall|a: int, b: int| 0 <= a < b < s.len() ==> s[a] <= s[b]
}

/// Sorting a group of values gives the sorted permutation.
proof fn lemma_is_the_sort(values: Seq<u128>, sorted: Seq<u128>)
    requires
        ascending(sorted),
        sorted.to_multiset() == values.to_multiset(),
    ensures
        sorted == values.sort_by(|x: u128, y: u128| leq(x, y)),
{
    lemma_leq_total_ordering();
    assert(sorted_by(sorted, |x: u128, y: u128| leq(x, y)));
    values.lemma_sort_by_ensures(|x: u128, y: u128| leq(x, y));
    lemma_sorted_unique(sorted, values.sort_by(|x: u128, y: u128| leq(x, y)), |x: u128, y: u128| leq(x, y));
}

/// Sorts ascending.
pub fn sort_values(values: &Vec<u128>) -> (r: Vec<u128>)
    ensures
        r@ == values@.sort_by(|x: u128, y: u128| leq(x, y)),
{
    let mut out: Vec<u128> = Vec::new();
    let mut i: usize = 0;
    while i < values.len()
        invariant
            i <= values.len(),
            ascending(out@),
            out@.to_multiset() == values@.take(i as int).to_multiset(),
        decreases values.len() - i,
    {
        let x = values[i];
        let mut j: usize = 0;
        while j < out.len() && out[j] <= x
            invariant
                j <= out.len(),
                forall|k: int| 0 <= k < j ==> out@[k] <= x,
            decreases out.len() - j,
        {
            j = j + 1;
        }
        let ghost before = out@;
        out.insert(j, x);
        proof {
            assert(values@.take(i + 1) == values@.take(i as int).push(x));
            assert forall|a: int, b: int| 0 <= a < b < out@.len() implies out@[a] <= out@[b] by {
                if b < j {
                    assert(out@[a] == before[a] && out@[b] == before[b]);
                } else if b == j {
                    assert(out@[a] == before[a]);
                } else if a < j {
                    assert(out@[b] == before[b - 1]);
                    assert(j < before.len() && before[j as int] > x);
                    assert(before[a] <= x);
                } else if a == j {
                    assert(j < before.len() && before[j as int] > x);
                    assert(out@[b] == before[b - 1]);
                } else {
                    assert(out@[a] == before[a - 1] && out@[b] == before[b - 1]);
                }
            }
        }
        i = i + 1;
    }
    proof {
        assert(values@.take(values.len() as int) == values@);
        lemma_is_the_sort(values@, out@);
    }
    out
}

impl RunRecord {
    pub fn measure(&self, m: Measure) -> (r: u128)
        ensures
            r == measure(*self, m),
    {
        match m {
            Measure::Runs(o) => if self.outcome == o { 1 } else { 0 },
            Measure::Tasks => self.tasks,
            Measure::SuccessTimeMs => if self.outcome == RunOutcome::Success { self.time_ms } else { 0 },
            Measure::ExpeditiousCharges => self.supplies.expeditious_bracelet_charges as u128,
            Measure::SlaughterCharges => self.supplies.bracelet_of_slaughter_charges as u128,
            Measure::GamesNecklaceCharges => self.supplies.games_necklace_charges as u128,
            Measure::DuelingRingCharges => self.supplies.dueling_ring_charges as u128,
            Measure::PassageCharges => self.supplies.necklace_of_passage_charges as u128,
            Measure::ChronicleCharges => self.supplies.chronicle_charges as u128,
            Measure::SkullSceptreCharges => self.supplies.skull_sceptre_charges as u128,
            Measure::GiantsoulCharges => self.supplies.giantsoul_amulet_charges as u128,
            Measure::LawRunes => self.supplies.law_runes as u128,
            Measure::DustBattlestaffs => self.drops.dust_battlestaff as u128,
            Measure::MistBattlestaffs => self.drops.mist_battlestaff as u128,
            Measure::ImbuedHearts => self.drops.imbued_heart as u128,
            Measure::EternalGems => self.drops.eternal_gem as u128,
            Measure::CaveCrawlerKills => self.cave_crawler_kills as u128,
        }
    }

    pub fn stat(&self, k: Stat) -> (r: u128)
        ensures
            r == stat(*self, k),
    {
        match k {
            Stat::Tasks => self.tasks,
            Stat::MinPoints => self.min_points,
            Stat::TotalPoints => self.total_points,
            Stat::EndPoints => self.end_points,
            Stat::MaxPoints => self.max_points,
            Stat::TimeMs => self.time_ms,
        }
    }
}

/// Sum of a measure over the records, saturating at `u128::MAX`.
pub fn capped_total(records: &Vec<RunRecord>, m: Measure) -> (r: u128)
    ensures
        r == cap128(total(records@, m)),
{
    let mut acc: u128 = 0;
    let mut i: usize = 0;
    while i < records.len()
        invariant
            i <= records.len(),
            acc == cap128(total(records@.take(i as int), m)),
        decreases records.len() - i,
    {
        assert(records@.take(i + 1).drop_last() == records@.take(i as int));
        acc = acc.saturating_add(records[i].measure(m));
        i = i + 1;
    }
    assert(records@.take(records.len() as int) == records@);
    acc
}

fn to_u64(x: u128) -> (r: u64)
    ensures
        r == cap64(x as nat),
{
    if x > u64::MAX as u128 {
        u64::MAX
    } else {
        x as u64
    }
}

/// A value of the records with outcome `o`, in order.
pub fn collect_values(records: &Vec<RunRecord>, o: RunOutcome, k: Stat) -> (r: Vec<u128>)
    ensures
        r@ == values_where(records@, o, k),
{
    let mut out: Vec<u128> = Vec::new();
    let mut i: usize = 0;
    while i < records.len()
        invariant
            i <= records.len(),
            out@ == values_where(records@.take(i as int), o, k),
        decreases records.len() - i,
    {
        assert(records@.take(i + 1).drop_last() == records@.take(i as int));
        if records[i].outcome == o {
            out.push(records[i].stat(k));
        }
        i = i + 1;
    }
    assert(records@.take(records.len() as int) == records@);
    out
}

/// Smallest, median and largest of a group of values.
pub fn order_stats(values: &Vec<u128>) -> (r: OrderStats)
    ensures
        r == stats_of(values@),
{
    let s = sort_values(values);
    if s.len() == 0 {
        OrderStats { count: 0, min: 0, median: 0, max: 0 }
    } else {
        OrderStats { count: to_u64(s.len() as u128), min: s[0], median: s[s.len() / 2], max: s[s.len() - 1] }
    }
}

fn group(records: &Vec<RunRecord>, o: RunOutcome) -> (r: GroupStats)
    ensures
        r == group_of(records@, o),
{
    GroupStats {
        tasks: order_stats(&collect_values(records, o, Stat::Tasks)),
        min_points: order_stats(&collect_values(records, o, Stat::MinPoints)),
        total_points: order_stats(&collect_values(records, o, Stat::TotalPoints)),
        end_points: order_stats(&collect_values(records, o, Stat::EndPoints)),
        max_points: order_stats(&collect_values(records, o, Stat::MaxPoints)),
        time_ms: order_stats(&collect_values(records, o, Stat::TimeMs)),
    }
}

fn total64(records: &Vec<RunRecord>, m: Measure) -> (r: u64)
    ensures
        r == cap64(total(records@, m)),
{
    to_u64(capped_total(records, m))
}

/// Reduces the records of all replications into one report.
pub fn aggregate(records: &Vec<RunRecord>) -> (r: Report)
    ensures
        r == report_of(records@),
{
    Report {
        runs: to_u64(records.len() as u128),
        successes: total64(records, Measure::Runs(RunOutcome::Success)),
        failures: total64(records, Measure::Runs(RunOutcome::Failure)),
        step_limited: total64(records, Measure::Runs(RunOutcome::StepLimit)),
        tasks_received: capped_total(records, Measure::Tasks),
        success_time_ms: capped_total(records, Measure::SuccessTimeMs),
        success: group(records, RunOutcome::Success),
        failure: group(records, RunOutcome::Failure),
        all_supplies: Supplies {
            expeditious_bracelet_charges: total64(records, Measure::ExpeditiousCharges),
            bracelet_of_slaughter_charges: total64(records, Measure::SlaughterCharges),
            games_necklace_charges: total64(records, Measure::GamesNecklaceCharges),
            dueling_ring_charges: total64(records, Measure::DuelingRingCharges),
            necklace_of_passage_charges: total64(records, Measure::PassageCharges),
            chronicle_charges: total64(records, Measure::ChronicleCharges),
            skull_sceptre_charges: total64(records, Measure::SkullSceptreCharges),
            giantsoul_amulet_charges: total64(records, Measure::GiantsoulCharges),
            law_runes: total64(records, Measure::LawRunes),
        },
        all_drops: SlayerDrops {
            dust_battlestaff: total64(records, Measure::DustBattlestaffs),
            mist_battlestaff: total64(records, Measure::MistBattlestaffs),
            imbued_heart: total64(records, Measure::ImbuedHearts),
            eternal_gem: total64(records, Measure::EternalGems),
        },
        cave_crawlers_killed: total64(records, Measure::CaveCrawlerKills),
    }
}

proof fn lemma_total_remove(s: Seq<RunRecord>, m: Measure, j: int)
    requires
        0 <= j < s.len(),
    ensures
        total(s, m) == total(s.remove(j), m) + measure(s[j], m),
    decreases s.len(),
{
    if j < s.len() - 1 {
        lemma_total_remove(s.drop_last(), m, j);
        assert(s.remove(j).drop_last() == s.drop_last().remove(j));
        assert(s.remove(j).last() == s.last());
    } else {
        assert(s.remove(j) == s.drop_last());
    }
}

proof fn lemma_values_remove(s: Seq<RunRecord>, o: RunOutcome, k: Stat, j: int)
    requires
        0 <= j < s.len(),
    ensures
        values_where(s, o, k).to_multiset() == if s[j].outcome == o {
            values_where(s.remove(j), o, k).to_multiset().insert(stat(s[j], k))
        } else {
            values_where(s.remove(j), o, k).to_multiset()
        },
    decreases s.len(),
{
    if j < s.len() - 1 {
        lemma_values_remove(s.drop_last(), o, k, j);
        assert(s.remove(j).drop_last() == s.drop_last().remove(j));
        assert(s.remove(j).last() == s.last());
        let a = values_where(s.drop_last().remove(j), o, k).to_multiset();
        if s[j].outcome == o && s.last().outcome == o {
            assert(a.insert(stat(s[j], k)).insert(stat(s.last(), k)) =~= a.insert(stat(s.last(), k)).insert(
                stat(s[j], k),
            ));
        }
    } else {
        assert(s.remove(j) == s.drop_last());
    }
}

/// Two lists with the same records, in any order.
pub open spec fn same_records(s: Seq<RunRecord>, t: Seq<RunRecord>) -> bool {
    s.to_multiset() == t.to_multiset()
}

proof fn lemma_take_out_last(s: Seq<RunRecord>, t: Seq<RunRecord>) -> (j: int)
    requires
        same_records(s, t),
        s.len() > 0,
    ensures
        0 <= j < t.len(),
        t[j] == s.last(),
        same_records(s.drop_last(), t.remove(j)),
{
    let x = s.last();
    assert(s.contains(x)) by {
        assert(s[s.len() - 1] == x);
    }
    assert(t.to_multiset().count(x) > 0);
    assert(t.contains(x));
    let j = choose|j: int| 0 <= j < t.len() && t[j] == x;
    assert(s.drop_last() == s.remove(s.len() - 1));
    j
}

proof fn lemma_total_same_records(s: Seq<RunRecord>, t: Seq<RunRecord>, m: Measure)
    requires
        same_records(s, t),
    ensures
        total(s, m) == total(t, m),
    decreases s.len(),
{
    assert(s.to_multiset().len() == t.to_multiset().len());
    if s.len() == 0 {
        assert(t.len() == 0);
    } else {
        let j = lemma_take_out_last(s, t);
        lemma_total_same_records(s.drop_last(), t.remove(j), m);
        lemma_total_remove(t, m, j);
    }
}

proof fn lemma_values_same_records(s: Seq<RunRecord>, t: Seq<RunRecord>, o: RunOutcome, k: Stat)
    requires
        same_records(s, t),
    ensures
        values_where(s, o, k).to_multiset() == values_where(t, o, k).to_multiset(),
    decreases s.len(),
{
    assert(s.to_multiset().len() == t.to_multiset().len());
    if s.len() == 0 {
        assert(t.len() == 0);
        assert(t == Seq::<RunRecord>::empty());
    } else {
        let j = lemma_take_out_last(s, t);
        lemma_values_same_records(s.drop_last(), t.remove(j), o, k);
        lemma_values_remove(t, o, k, j);
    }
}

proof fn lemma_stats_same_values(a: Seq<u128>, b: Seq<u128>)
    requires
        a.to_multiset() == b.to_multiset(),
    ensures
        stats_of(a) == stats_of(b),
{
    lemma_leq_total_ordering();
    a.lemma_sort_by_ensures(|x: u128, y: u128| leq(x, y));
    b.lemma_sort_by_ensures(|x: u128, y: u128| leq(x, y));
    lemma_sorted_unique(
        a.sort_by(|x: u128, y: u128| leq(x, y)),
        b.sort_by(|x: u128, y: u128| leq(x, y)),
        |x: u128, y: u128| leq(x, y),
    );
}

/// The report does not depend on the order of the run records: any two
/// lists holding the same records give the same report. So replications
/// that finish in any order, sequentially or in parallel, reduce alike.
pub proof fn lemma_report_order_independent(s: Seq<RunRecord>, t: Seq<RunRecord>)
    requires
        same_records(s, t),
    ensures
        report_of(s) == report_of(t),
{
    assert(s.to_multiset().len() == t.to_multiset().len());
    assert(s.len() == t.len());
    assert forall|m: Measure| total(s, m) == total(t, m) by {
        lemma_total_same_records(s, t, m);
    }
    assert forall|o: RunOutcome, k: Stat| stats_of(values_where(s, o, k)) == stats_of(values_where(t, o, k)) by {
        lemma_values_same_records(s, t, o, k);
        lemma_stats_same_values(values_where(s, o, k), values_where(t, o, k));
    }
    assert(group_of(s, RunOutcome::Success) == group_of(t, RunOutcome::Success));
    assert(group_of(s, RunOutcome::Failure) == group_of(t, RunOutcome::Failure));
    assert(supplies_total(s) == supplies_total(t));
    assert(drops_total(s) == drops_total(t));
}

proof fn lemma_values_where_member(s: Seq<RunRecord>, o: RunOutcome, k: Stat, v: u128)
    requires
        values_where(s, o, k).contains(v),
    ensures
        exists|i: int| 0 <= i < s.len() && (#[trigger] s[i]).outcome == o && stat(s[i], k) == v,
    decreases s.len(),
{
    let init = s.drop_last();
    let w = values_where(init, o, k);
    if s.last().outcome == o && stat(s.last(), k) == v {
        assert(s[s.len() - 1] == s.last());
    } else {
        if s.last().outcome == o {
            let j = choose|j: int| 0 <= j < w.push(stat(s.last(), k)).len() && w.push(stat(s.last(), k))[j] == v;
            assert(j < w.len());
            assert(w[j] == v);
        }
        assert(w.contains(v));
        lemma_values_where_member(init, o, k, v);
        let i = choose|i: int| 0 <= i < init.len() && (#[trigger] init[i]).outcome == o && stat(init[i], k) == v;
        assert(s[i] == init[i]);
    }
}

proof fn lemma_values_where_nonempty(s: Seq<RunRecord>, o: RunOutcome, k: Stat, i: int)
    requires
        0 <= i < s.len(),
        s[i].outcome == o,
    ensures
        values_where(s, o, k).len() > 0,
    decreases s.len(),
{
    if i < s.len() - 1 {
        lemma_values_where_nonempty(s.drop_last(), o, k, i);
    }
}

/// The successful run whose elapsed time is the median over successful
/// runs (the first such run in the list), for detailed reporting; `None`
/// where no run succeeded.
pub fn median_run(records: &Vec<RunRecord>) -> (r: Option<usize>)
    ensures
        r is None <==> forall|i: int| 0 <= i < records.len() ==> (#[trigger] records@[i]).outcome != RunOutcome::Success,
        r matches Some(i) ==> i < records.len() && records@[i as int].outcome == RunOutcome::Success
            && records@[i as int].time_ms == report_of(records@).success.time_ms.median
            && forall|j: int| 0 <= j < i ==> !((#[trigger] records@[j]).outcome == RunOutcome::Success
                && records@[j].time_ms == records@[i as int].time_ms),
{
    let times = collect_values(records, RunOutcome::Success, Stat::TimeMs);
    let stats = order_stats(&times);
    let ghost values = values_where(records@, RunOutcome::Success, Stat::TimeMs);
    proof {
        if values.len() > 0 {
            lemma_leq_total_ordering();
            values.lemma_sort_by_ensures(|x: u128, y: u128| leq(x, y));
            let sorted = values.sort_by(|x: u128, y: u128| leq(x, y));
            assert(sorted.to_multiset().len() == values.to_multiset().len());
            assert(sorted.contains(sorted[sorted.len() as int / 2]));
            assert(values.contains(stats.median));
            lemma_values_where_member(records@, RunOutcome::Success, Stat::TimeMs, stats.median);
        }
    }
    let mut i: usize = 0;
    while i < records.len()
        invariant
            i <= records.len(),
            stats == report_of(records@).success.time_ms,
            values == values_where(records@, RunOutcome::Success, Stat::TimeMs),
            values.len() > 0 ==> exists|k: int| i <= k < records.len() && (#[trigger] records@[k]).outcome
                == RunOutcome::Success && records@[k].time_ms == stats.median,
            forall|j: int| 0 <= j < i ==> !((#[trigger] records@[j]).outcome == RunOutcome::Success
                && records@[j].time_ms == stats.median),
        decreases records.len() - i,
    {
        if records[i].outcome == RunOutcome::Success && records[i].time_ms == stats.median {
            return Some(i);
        }
        i = i + 1;
    }
    proof {
        assert forall|j: int| 0 <= j < records.len() implies (#[trigger] records@[j]).outcome != RunOutcome::Success by {
            if records@[j].outcome == RunOutcome::Success {
                lemma_values_where_nonempty(records@, RunOutcome::Success, Stat::TimeMs, j);
            }
        }
    }
    None
}

} // verus!
