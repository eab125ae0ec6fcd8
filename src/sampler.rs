use vstd::prelude::*;

use crate::catalog::{list_wf, total_weight, Assignment, Catalog, Monster, SlayerMaster};
use crate::player::PlayerState;
use vstd::set_lib::{lemma_int_range, set_int_range};

verus! {

/// Whether `a` may be handed out next: the player meets its gates and it is
/// not the creature of the task just finished.
pub open spec fn eligible(catalog: &Catalog, player: &PlayerState, last: Monster, a: Assignment) -> bool {
    player.receives(catalog, a) && a.monster != last
}

/// The eligible entries of `list`, in their order.
pub open spec fn candidates(list: Seq<Assignment>, catalog: &Catalog, player: &PlayerState, last: Monster) -> Seq<Assignment>
    decreases list.len(),
{
    if list.len() == 0 {
        Seq::empty()
    } else {
        let rest = candidates(list.drop_last(), catalog, player, last);
        if eligible(catalog, player, last, list.last()) {
            rest.push(list.last())
        } else {
            rest
        }
    }
}

/// Total weight of the first `i` entries.
pub open spec fn prefix_weight(list: Seq<Assignment>, i: int) -> nat {
    total_weight(list.take(i))
}

/// The entry that a draw `d` in `[0, total_weight(list))` selects: the first
/// one whose running weight sum exceeds `d`.
pub open spec fn selected(list: Seq<Assignment>, d: int) -> int
    decreases list.len(),
{
    if list.len() <= 1 {
        0
    } else if d < total_weight(list.drop_last()) {
        selected(list.drop_last(), d)
    } else {
        list.len() - 1
    }
}

proof fn lemma_prefix_step(list: Seq<Assignment>, i: int)
    requires
        0 <= i < list.len(),
    ensures
        prefix_weight(list, i + 1) == prefix_weight(list, i) + list[i].weight,
{
    assert(list.take(i + 1).drop_last() == list.take(i));
}

proof fn lemma_prefix_full(list: Seq<Assignment>)
    ensures
        prefix_weight(list, list.len() as int) == total_weight(list),
{
    assert(list.take(list.len() as int) == list);
}

proof fn lemma_prefix_monotonic(list: Seq<Assignment>, i: int, j: int)
    requires
        0 <= i <= j <= list.len(),
    ensures
        prefix_weight(list, i) <= prefix_weight(list, j),
    decreases j - i,
{
    if i < j {
        lemma_prefix_monotonic(list, i, j - 1);
        lemma_prefix_step(list, j - 1);
    }
}

proof fn lemma_prefix_of_drop_last(list: Seq<Assignment>, i: int)
    requires
        0 <= i < list.len(),
    ensures
        prefix_weight(list.drop_last(), i) == prefix_weight(list, i),
{
    assert(list.drop_last().take(i) == list.take(i));
}

/// For a draw below the total weight, `selected` is the entry whose
/// weight interval holds the draw.
proof fn lemma_selected_iff(list: Seq<Assignment>, d: int, i: int)
    requires
        0 <= d < total_weight(list),
        0 <= i < list.len(),
    ensures
        0 <= selected(list, d) < list.len(),
        selected(list, d) == i <==> prefix_weight(list, i) <= d < prefix_weight(list, i + 1),
    decreases list.len(),
{
    let n = list.len() as int;
    lemma_prefix_full(list);
    lemma_prefix_step(list, n - 1);
    lemma_prefix_full(list.drop_last());
    lemma_prefix_of_drop_last(list, n - 1);
    if n == 1 {
        assert(list.take(0) == Seq::<Assignment>::empty());
    } else if d < total_weight(list.drop_last()) {
        if i < n - 1 {
            lemma_selected_iff(list.drop_last(), d, i);
            lemma_prefix_of_drop_last(list, i);
            lemma_prefix_of_drop_last(list, i + 1);
        } else {
            lemma_selected_iff(list.drop_last(), d, 0);
        }
    } else {
        if i < n - 1 {
            lemma_prefix_monotonic(list, i + 1, n - 1);
        }
    }
}

proof fn lemma_candidates_weight(list: Seq<Assignment>, catalog: &Catalog, player: &PlayerState, last: Monster)
    ensures
        total_weight(candidates(list, catalog, player, last)) <= total_weight(list),
    decreases list.len(),
{
    if list.len() > 0 {
        lemma_candidates_weight(list.drop_last(), catalog, player, last);
        let rest = candidates(list.drop_last(), catalog, player, last);
        assert(rest.push(list.last()).drop_last() == rest);
    }
}

/// Exactly the eligible entries of `list` are candidates.
pub proof fn lemma_candidates_members(list: Seq<Assignment>, catalog: &Catalog, player: &PlayerState, last: Monster)
    ensures
        forall|a: Assignment| #[trigger] candidates(list, catalog, player, last).contains(a)
            <==> (list.contains(a) && eligible(catalog, player, last, a)),
    decreases list.len(),
{
    if list.len() > 0 {
        let init = list.drop_last();
        lemma_candidates_members(init, catalog, player, last);
        let rest = candidates(init, catalog, player, last);
        assert(list == init.push(list.last()));
        assert forall|a: Assignment| #[trigger] candidates(list, catalog, player, last).contains(a)
            <==> (list.contains(a) && eligible(catalog, player, last, a)) by {
            if list.contains(a) && eligible(catalog, player, last, a) {
                let j = choose|j: int| 0 <= j < list.len() && list[j] == a;
                if j < list.len() - 1 {
                    assert(init[j] == a);
                    assert(rest.contains(a));
                    if eligible(catalog, player, last, list.last()) {
                        let k = choose|k: int| 0 <= k < rest.len() && rest[k] == a;
                        assert(rest.push(list.last())[k] == a);
                    }
                } else {
                    assert(rest.push(list.last())[rest.len() as int] == a);
                }
            }
            if candidates(list, catalog, player, last).contains(a) {
                let c = candidates(list, catalog, player, last);
                let k = choose|k: int| 0 <= k < c.len() && c[k] == a;
                if k < rest.len() {
                    assert(rest[k] == a);
                    assert(rest.contains(a));
                    assert(init.contains(a));
                    let j = choose|j: int| 0 <= j < init.len() && init[j] == a;
                    assert(list[j] == a);
                } else {
                    assert(list[list.len() - 1] == a);
                }
            }
        }
    }
}

/// Candidates paired with the running sum of their weights.
pub open spec fn prefix_table_of(table: Seq<(u32, Assignment)>, cands: Seq<Assignment>) -> bool {
    &&& table.len() == cands.len()
    &&& forall|i: int| 0 <= i < table.len() ==> (#[trigger] table[i]).1 == cands[i]
        && table[i].0 == prefix_weight(cands, i + 1)
}

impl SlayerMaster {
    /// The master's entries that may be handed out next, in order.
    pub open spec fn candidates(self, catalog: &Catalog, player: &PlayerState, last: Monster) -> Seq<Assignment> {
        candidates(catalog.offerings(self), catalog, player, last)
    }

    /// The eligible entries of the master's list, each with the running sum
    /// of the weights up to and including it.
    pub fn possible_tasks(self, catalog: &Catalog, player: &PlayerState, last: Monster) -> (r: Vec<(u32, Assignment)>)
        requires
            catalog.wf(),
        ensures
            prefix_table_of(r@, self.candidates(catalog, player, last)),
    {
        let list = self.assignments(catalog);
        assert(list_wf(catalog.offerings(self)));
        let ghost full = list@;
        let mut table: Vec<(u32, Assignment)> = Vec::new();
        let mut sum: u32 = 0;
        let mut k: usize = 0;
        while k < list.len()
            invariant
                list@ == full,
                full == catalog.offerings(self),
                total_weight(full) <= u32::MAX,
                catalog.wf(),
                k <= list.len(),
                prefix_table_of(table@, candidates(full.take(k as int), catalog, player, last)),
                sum == total_weight(candidates(full.take(k as int), catalog, player, last)),
            decreases list.len() - k,
        {
            let ghost before = candidates(full.take(k as int), catalog, player, last);
            assert(full.take(k + 1).drop_last() == full.take(k as int));
            assert(full.take(k + 1).last() == full[k as int]);
            let a = list[k];
            if player.can_receive_assignment(catalog, &a) && a.monster != last {
                proof {
                    lemma_candidates_weight(full.take(k + 1), catalog, player, last);
                    lemma_prefix_monotonic(full, k + 1, full.len() as int);
                    lemma_prefix_full(full);
                    let after = before.push(a);
                    assert(after.drop_last() == before);
                    lemma_prefix_full(after);
                    assert forall|i: int| 0 <= i < before.len() implies #[trigger] prefix_weight(after, i + 1)
                        == prefix_weight(before, i + 1) by {
                        lemma_prefix_of_drop_last(after, i + 1);
                    }
                }
                sum = sum + a.weight;
                table.push((sum, a));
            }
            k = k + 1;
        }
        assert(full.take(list.len() as int) == full);
        table
    }

    /// Total weight of the entries that may be handed out next.
    pub fn total_candidate_weight(self, catalog: &Catalog, player: &PlayerState, last: Monster) -> (r: u32)
        requires
            catalog.wf(),
        ensures
            r == total_weight(self.candidates(catalog, player, last)),
    {
        let table = self.possible_tasks(catalog, player, last);
        let ghost cands = self.candidates(catalog, player, last);
        proof {
            lemma_prefix_full(cands);
        }
        if table.len() == 0 {
            assert(cands == Seq::<Assignment>::empty());
            0
        } else {
            table[table.len() - 1].0
        }
    }

    /// The assignment that `draw` selects among the entries that may be
    /// handed out next, or `None` where `draw` is not below their total weight.
    pub fn assignment_for_draw(self, catalog: &Catalog, player: &PlayerState, last: Monster, draw: u32) -> (r: Option<Assignment>)
        requires
            catalog.wf(),
        ensures
            ({
                let cands = self.candidates(catalog, player, last);
                &&& draw < total_weight(cands) <==> r is Some
                &&& r matches Some(a) ==> a == cands[selected(cands, draw as int)]
            }),
    {
        let table = self.possible_tasks(catalog, player, last);
        match pick(&table, draw, Ghost(self.candidates(catalog, player, last))) {
            Some(i) => Some(table[i].1),
            None => None,
        }
    }
}

/// The position of the first entry of a running-sum table whose sum exceeds
/// `draw`, which is the entry `selected` names.
fn pick(table: &Vec<(u32, Assignment)>, draw: u32, Ghost(cands): Ghost<Seq<Assignment>>) -> (r: Option<usize>)
    requires
        prefix_table_of(table@, cands),
    ensures
        draw < total_weight(cands) <==> r is Some,
        r matches Some(i) ==> i < table.len() && i == selected(cands, draw as int),
{
    proof {
        lemma_prefix_full(cands);
    }
    let mut i: usize = 0;
    while i < table.len()
        invariant
            prefix_table_of(table@, cands),
            prefix_weight(cands, cands.len() as int) == total_weight(cands),
            i <= table.len(),
            prefix_weight(cands, i as int) <= draw,
        decreases table.len() - i,
    {
        proof {
            lemma_prefix_step(cands, i as int);
        }
        if table[i].0 > draw {
            proof {
                lemma_prefix_monotonic(cands, i + 1, cands.len() as int);
                lemma_prefix_full(cands);
                lemma_selected_iff(cands, draw as int, i as int);
            }
            return Some(i);
        }
        i = i + 1;
    }
    None
}

/// Every draw below the total weight selects an entry, that entry has a
/// positive weight, and each entry is selected by exactly as many draws in
/// `[0, total)` as its weight: those from the weight sum of the entries before
/// it up to, not including, that sum plus its own weight.
pub proof fn lemma_sampler_exact(list: Seq<Assignment>, i: int)
    requires
        0 <= i < list.len(),
    ensures
        forall|d: int| 0 <= d < total_weight(list) ==> 0 <= #[trigger] selected(list, d) < list.len()
            && list[selected(list, d)].weight > 0,
        Set::new(|d: int| 0 <= d < total_weight(list) && selected(list, d) == i)
            == Set::new(|d: int| prefix_weight(list, i) <= d < prefix_weight(list, i) + list[i].weight),
        Set::new(|d: int| 0 <= d < total_weight(list) && selected(list, d) == i).len() == list[i].weight,
{
    lemma_prefix_full(list);
    lemma_prefix_step(list, i);
    lemma_prefix_monotonic(list, i + 1, list.len() as int);
    assert forall|d: int| 0 <= d < total_weight(list) implies 0 <= #[trigger] selected(list, d) < list.len()
        && list[selected(list, d)].weight > 0 by {
        lemma_selected_iff(list, d, 0);
        let j = selected(list, d);
        lemma_selected_iff(list, d, j);
        lemma_prefix_step(list, j);
    }
    let lo = prefix_weight(list, i) as int;
    let hi = lo + list[i].weight;
    assert forall|d: int| (0 <= d < total_weight(list) && selected(list, d) == i) <==> lo <= d < hi by {
        if 0 <= d < total_weight(list) {
            lemma_selected_iff(list, d, i);
        }
    }
    assert(Set::new(|d: int| 0 <= d < total_weight(list) && selected(list, d) == i)
        =~= Set::new(|d: int| lo <= d < hi));
    assert(Set::new(|d: int| lo <= d < hi) =~= set_int_range(lo, hi));
    lemma_int_range(lo, hi);
}

/// The creatures that the sampler can hand out are exactly those of the
/// master's eligible entries with a positive weight: every draw below the
/// total selects an eligible entry, and every eligible entry of positive
/// weight is selected by some such draw.
pub proof fn lemma_sampler_support(master: SlayerMaster, catalog: &Catalog, player: &PlayerState, last: Monster)
    ensures
        ({
            let list = catalog.offerings(master);
            let cands = master.candidates(catalog, player, last);
            &&& forall|d: int| 0 <= d < total_weight(cands) ==> list.contains(#[trigger] cands[selected(cands, d)])
                && eligible(catalog, player, last, cands[selected(cands, d)])
            &&& forall|a: Assignment| list.contains(a) && eligible(catalog, player, last, a) && a.weight > 0
                ==> exists|d: int| 0 <= d < total_weight(cands) && #[trigger] cands[selected(cands, d)] == a
        }),
{
    let list = catalog.offerings(master);
    let cands = master.candidates(catalog, player, last);
    lemma_candidates_members(list, catalog, player, last);
    assert forall|d: int| 0 <= d < total_weight(cands) implies list.contains(#[trigger] cands[selected(cands, d)])
        && eligible(catalog, player, last, cands[selected(cands, d)]) by {
        lemma_selected_iff(cands, d, 0);
        assert(cands.contains(cands[selected(cands, d)]));
    }
    assert forall|a: Assignment| list.contains(a) && eligible(catalog, player, last, a) && a.weight > 0
        implies exists|d: int| 0 <= d < total_weight(cands) && #[trigger] cands[selected(cands, d)] == a by {
        assert(cands.contains(a));
        let k = choose|k: int| 0 <= k < cands.len() && cands[k] == a;
        let d = prefix_weight(cands, k) as int;
        lemma_prefix_step(cands, k);
        lemma_prefix_monotonic(cands, k + 1, cands.len() as int);
        lemma_prefix_full(cands);
        lemma_selected_iff(cands, d, k);
        assert(cands[selected(cands, d)] == a);
    }
}

/// Two players that meet the same gates have the same candidates.
pub proof fn lemma_candidates_same_gates(list: Seq<Assignment>, catalog: &Catalog, p: &PlayerState, q: &PlayerState, last: Monster)
    requires
        forall|a: Assignment| p.receives(catalog, a) == q.receives(catalog, a),
    ensures
        candidates(list, catalog, p, last) == candidates(list, catalog, q, last),
    decreases list.len(),
{
    if list.len() > 0 {
        lemma_candidates_same_gates(list.drop_last(), catalog, p, q, last);
        assert(p.receives(catalog, list.last()) == q.receives(catalog, list.last()));
    }
}

} // verus!
