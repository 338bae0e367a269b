//! Upgrades waiting for their requirements, and upgrades ready to be offered.
use vstd::prelude::*;

use crate::generator::GeneratorID;
use crate::generator::generator_list::GeneratorList;
use crate::resources::{ResourceType, RESOURCE_COUNT};
use crate::resources::resource_array::{ResValArray, zeros};
use crate::upgrades::{Upgrade, generator_name_in};
use crate::upgrades::upgrade_save::{UpgradeListSave, UpgradeSave, upgrade_saved_from};

verus! {

/// The upgrades of `s` whose requirements `totals` meets.
pub open spec fn reached_in(s: Seq<Upgrade>, totals: Seq<usize>) -> Seq<Upgrade> {
    s.filter(|u: Upgrade| u.reached(totals))
}

/// The upgrades of `s` whose requirements `totals` does not meet.
pub open spec fn unreached_in(s: Seq<Upgrade>, totals: Seq<usize>) -> Seq<Upgrade> {
    s.filter(|u: Upgrade| !u.reached(totals))
}

/// Polling splits the pending upgrades without losing or repeating any: the
/// upgrades moved out and the upgrades kept together are exactly the pending
/// ones; every upgrade moved out meets its requirements and none kept does.
pub proof fn law_poll_partitions(pending: Seq<Upgrade>, totals: Seq<usize>)
    ensures
        (reached_in(pending, totals) + unreached_in(pending, totals)).to_multiset() == pending.to_multiset(),
        forall|i: int| 0 <= i < reached_in(pending, totals).len() ==> (#[trigger] reached_in(pending, totals)[i]).reached(totals),
        forall|i: int| 0 <= i < unreached_in(pending, totals).len() ==> !(#[trigger] unreached_in(pending, totals)[i]).reached(totals),
    decreases pending.len(),
{
    broadcast use vstd::seq_lib::group_to_multiset_ensures;
    broadcast use vstd::multiset::group_multiset_axioms;
    let reached = |u: Upgrade| u.reached(totals);
    let unreached = |u: Upgrade| !u.reached(totals);
    let r = reached_in(pending, totals);
    let k = unreached_in(pending, totals);
    vstd::seq_lib::lemma_multiset_commutative(r, k);
    if pending.len() == 0 {
        assert(r =~= Seq::<Upgrade>::empty());
        assert(k =~= Seq::<Upgrade>::empty());
        assert(r.to_multiset() =~= vstd::multiset::Multiset::empty());
        assert(k.to_multiset() =~= vstd::multiset::Multiset::empty());
        assert(pending.to_multiset() =~= vstd::multiset::Multiset::empty());
        assert(r.to_multiset().add(k.to_multiset()) =~= pending.to_multiset());
    } else {
        let rest = pending.drop_last();
        let x = pending.last();
        law_poll_partitions(rest, totals);
        assert(pending =~= rest.push(x));
        rest.lemma_filter_push(x, reached);
        rest.lemma_filter_push(x, unreached);
        let a = reached_in(rest, totals);
        let b = unreached_in(rest, totals);
        vstd::seq_lib::lemma_multiset_commutative(a, b);
        vstd::seq_lib::to_multiset_build(rest, x);
        if x.reached(totals) {
            assert(r == a.push(x));
            assert(k == b);
            vstd::seq_lib::to_multiset_build(a, x);
            assert(r.to_multiset().add(k.to_multiset()) =~= pending.to_multiset());
        } else {
            assert(r == a);
            assert(k == b.push(x));
            vstd::seq_lib::to_multiset_build(b, x);
            assert(r.to_multiset().add(k.to_multiset()) =~= pending.to_multiset());
        }
    }
    assert forall|i: int| 0 <= i < r.len() implies (#[trigger] r[i]).reached(totals) by {
        pending.lemma_filter_pred(reached, i);
    }
    assert forall|i: int| 0 <= i < k.len() implies !(#[trigger] k[i]).reached(totals) by {
        pending.lemma_filter_pred(unreached, i);
    }
}

/// An upgrade's requirements are met exactly when, for every resource, the
/// amount ever earned is at least the amount required: one resource earned
/// in full is not enough while another falls short.
pub proof fn law_reached_means_every_requirement_met(u: Upgrade, totals: Seq<usize>)
    ensures
        u.reached(totals) <==> forall|i: int| 0 <= i < RESOURCE_COUNT ==> #[trigger] totals[i] >= u.requirements@[i],
        (exists|i: int| 0 <= i < RESOURCE_COUNT && #[trigger] totals[i] < u.requirements@[i]) ==> !u.reached(totals),
{
}

/// Polling moves out exactly the pending upgrades whose every requirement
/// is met: the upgrades moved out are those of `pending`, in order, for
/// which every resource earned covers its requirement; those kept are the
/// others, in order.
pub proof fn law_poll_moves_exactly_the_met(pending: Seq<Upgrade>, totals: Seq<usize>)
    ensures
        reached_in(pending, totals) == pending.filter(
            |u: Upgrade| forall|i: int| 0 <= i < RESOURCE_COUNT ==> #[trigger] totals[i] >= u.requirements@[i],
        ),
        unreached_in(pending, totals) == pending.filter(
            |u: Upgrade| exists|i: int| 0 <= i < RESOURCE_COUNT && #[trigger] totals[i] < u.requirements@[i],
        ),
{
    let p1 = |u: Upgrade| u.reached(totals);
    let q1 = |u: Upgrade| forall|i: int| 0 <= i < RESOURCE_COUNT ==> #[trigger] totals[i] >= u.requirements@[i];
    let p2 = |u: Upgrade| !u.reached(totals);
    let q2 = |u: Upgrade| exists|i: int| 0 <= i < RESOURCE_COUNT && #[trigger] totals[i] < u.requirements@[i];
    assert(p1 =~= q1);
    assert(p2 =~= q2);
}

/// Once the amounts earned meet an upgrade's requirements, larger amounts
/// still meet them.
pub proof fn law_reached_stays_reached(u: Upgrade, before: Seq<usize>, after: Seq<usize>)
    requires
        u.reached(before),
        forall|i: int| 0 <= i < RESOURCE_COUNT ==> #[trigger] after[i] >= before[i],
    ensures
        u.reached(after),
{
    assert forall|i: int| 0 <= i < RESOURCE_COUNT implies #[trigger] after[i] >= u.requirements@[i] by {
        assert(before[i] >= u.requirements@[i]);
    }
}

/// `m` holds the upgrades of a new game whose generators are `list`: none
/// ready, two pending.
pub open spec fn is_starting_upgrades(m: UpgradeManager, list: GeneratorList) -> bool {
    &&& m.ready_upgrades@.len() == 0
    &&& m.pending_upgrades@.len() == 2
    &&& ({
        let u = m.pending_upgrades@[0];
        &&& u.effected_generator.res_type.id == 0
        &&& u.effected_generator.idx == 0
        &&& u.speed_multiplier == Some(2usize)
        &&& u.output_multiplier is None
        &&& u.description@ == "I mean c'mon, just punch faster man"@
        &&& u.name@ == "Punch trees faster"@
        &&& u.cost@ == zeros().update(0, 100)
        &&& u.requirements@ == zeros().update(0, 500)
        &&& u.generator_name@ == generator_name_in(list, u.effected_generator)
        &&& !u.selected
    })
    &&& ({
        let u = m.pending_upgrades@[1];
        &&& u.effected_generator.res_type.id == 1
        &&& u.effected_generator.idx == 0
        &&& u.speed_multiplier is None
        &&& u.output_multiplier == Some(2usize)
        &&& u.description@ == "Those are some thick ass branches"@
        &&& u.name@ == "Use bigger branches"@
        &&& u.cost@ == zeros().update(0, 1000)
        &&& u.requirements@ == zeros().update(1, 500)
        &&& u.generator_name@ == generator_name_in(list, u.effected_generator)
        &&& !u.selected
    })
}

/// Upgrades of a game, split by whether their requirements have been met.
pub struct UpgradeManager {
    /// Requirements met, waiting to be moved to the shop.
    pub ready_upgrades: Vec<Upgrade>,
    /// Requirements not yet met.
    pub pending_upgrades: Vec<Upgrade>,
}

impl UpgradeManager {
    /// The upgrades of a new game, all pending.
    pub fn new(generator_list: &GeneratorList) -> (r: Self)
        ensures
            is_starting_upgrades(r, *generator_list),
    {
        let ready_upgrades: Vec<Upgrade> = Vec::new();
        let mut pending_upgrades: Vec<Upgrade> = Vec::new();
        let wood = ResourceType::wood();
        let stone = ResourceType::stone();
        pending_upgrades.push(
            Upgrade::new(
                GeneratorID::new(wood, 0),
                Some(2),
                None,
                String::from_str("I mean c'mon, just punch faster man"),
                String::from_str("Punch trees faster"),
                generator_list,
            ).add_cost(100, wood).add_requirement(500, wood),
        );
        pending_upgrades.push(
            Upgrade::new_output(
                GeneratorID::new(stone, 0),
                2,
                String::from_str("Those are some thick ass branches"),
                String::from_str("Use bigger branches"),
                ResValArray::new().add_cost(1000, wood),
                ResValArray::new().add_cost(500, stone),
                generator_list,
            ),
        );
        UpgradeManager { ready_upgrades, pending_upgrades }
    }

    /// Moves every pending upgrade whose requirements `totals` meets to the
    /// end of the ready list, keeping both lists in their order.
    pub fn poll_requirement_reached(&mut self, totals: ResValArray)
        ensures
            final(self).ready_upgrades@ == old(self).ready_upgrades@ + reached_in(old(self).pending_upgrades@, totals@),
            final(self).pending_upgrades@ == unreached_in(old(self).pending_upgrades@, totals@),
            final(self).ready_upgrades@.len() - old(self).ready_upgrades@.len() + final(self).pending_upgrades@.len()
                == old(self).pending_upgrades@.len(),
            forall|j: int| old(self).ready_upgrades@.len() <= j < final(self).ready_upgrades@.len() ==>
                forall|i: int| 0 <= i < RESOURCE_COUNT ==> #[trigger] totals@[i] >= (#[trigger] final(self).ready_upgrades@[j]).requirements@[i],
            final(self).ready_upgrades@ == old(self).ready_upgrades@ + old(self).pending_upgrades@.filter(
                |u: Upgrade| forall|i: int| 0 <= i < RESOURCE_COUNT ==> #[trigger] totals@[i] >= u.requirements@[i],
            ),
            final(self).pending_upgrades@ == old(self).pending_upgrades@.filter(
                |u: Upgrade| exists|i: int| 0 <= i < RESOURCE_COUNT && #[trigger] totals@[i] < u.requirements@[i],
            ),
    {
        let ghost pending = self.pending_upgrades@;
        let ghost reached = |u: Upgrade| u.reached(totals@);
        let ghost unreached = |u: Upgrade| !u.reached(totals@);
        let mut kept: Vec<Upgrade> = Vec::new();
        let mut i: usize = 0;
        while i < self.pending_upgrades.len()
            invariant
                0 <= i <= pending.len(),
                self.pending_upgrades@ == pending,
                self.ready_upgrades@ == old(self).ready_upgrades@ + pending.take(i as int).filter(reached),
                kept@ == pending.take(i as int).filter(unreached),
                pending == old(self).pending_upgrades@,
                reached == (|u: Upgrade| u.reached(totals@)),
                unreached == (|u: Upgrade| !u.reached(totals@)),
            decreases pending.len() - i,
        {
            proof {
                assert(pending.take(i + 1) =~= pending.take(i as int).push(pending[i as int]));
                pending.take(i as int).lemma_filter_push(pending[i as int], reached);
                pending.take(i as int).lemma_filter_push(pending[i as int], unreached);
            }
            let item = self.pending_upgrades[i].clone();
            if totals.gte_all(item.requirements) {
                assert(reached(item));
                self.ready_upgrades.push(item);
                assert(self.ready_upgrades@ =~= old(self).ready_upgrades@ + pending.take(i + 1).filter(reached));
            } else {
                assert(!reached(item));
                kept.push(item);
                assert(kept@ =~= pending.take(i + 1).filter(unreached));
            }
            i += 1;
        }
        proof {
            assert(pending.take(pending.len() as int) =~= pending);
        }
        self.pending_upgrades = kept;
        proof {
            law_poll_partitions(pending, totals@);
            let r = reached_in(pending, totals@);
            let k = unreached_in(pending, totals@);
            let o = old(self).ready_upgrades@.len();
            broadcast use vstd::seq_lib::group_to_multiset_ensures;
            assert((r + k).to_multiset().len() == pending.to_multiset().len());
            assert((r + k).len() == r.len() + k.len());
            assert forall|j: int| o <= j < self.ready_upgrades@.len() implies
                forall|i: int| 0 <= i < RESOURCE_COUNT ==> #[trigger] totals@[i] >= (#[trigger] self.ready_upgrades@[j]).requirements@[i] by {
                assert(self.ready_upgrades@[j] == r[j - o]);
                assert(r[j - o].reached(totals@));
            }
            law_poll_moves_exactly_the_met(pending, totals@);
        }
    }

    /// A copy of the ready upgrade at position `idx`.
    pub fn get_upgrade(self, idx: usize) -> (r: Upgrade)
        requires
            idx < self.ready_upgrades@.len(),
        ensures
            r == self.ready_upgrades@[idx as int],
    {
        self.ready_upgrades[idx].clone()
    }

    /// Drops the ready upgrade at position `idx`.
    pub fn remove_upgrade(&mut self, idx: usize)
        requires
            idx < old(self).ready_upgrades@.len(),
        ensures
            final(self).ready_upgrades@ == old(self).ready_upgrades@.remove(idx as int),
            final(self).pending_upgrades == old(self).pending_upgrades,
    {
        self.ready_upgrades.remove(idx);
    }

    /// Rebuilds the upgrades from a save.
    pub fn from_save(upgrade_save_list: UpgradeListSave) -> (r: Self)
        requires
            forall|i: int| 0 <= i < upgrade_save_list.ready_upgrades@.len() ==> (#[trigger] upgrade_save_list.ready_upgrades@[i]).loadable(),
            forall|i: int| 0 <= i < upgrade_save_list.pending_upgrades@.len() ==> (#[trigger] upgrade_save_list.pending_upgrades@[i]).loadable(),
        ensures
            r.ready_upgrades@.len() == upgrade_save_list.ready_upgrades@.len(),
            forall|i: int| 0 <= i < r.ready_upgrades@.len() ==> loaded_upgrade(#[trigger] r.ready_upgrades@[i], upgrade_save_list.ready_upgrades@[i]),
            r.pending_upgrades@.len() == upgrade_save_list.pending_upgrades@.len(),
            forall|i: int| 0 <= i < r.pending_upgrades@.len() ==> loaded_upgrade(#[trigger] r.pending_upgrades@[i], upgrade_save_list.pending_upgrades@[i]),
    {
        UpgradeManager {
            ready_upgrades: load_all(&upgrade_save_list.ready_upgrades),
            pending_upgrades: load_all(&upgrade_save_list.pending_upgrades),
        }
    }

    /// The saved form of both lists.
    pub fn to_save(self) -> (r: UpgradeListSave)
        ensures
            r.ready_upgrades@.len() == self.ready_upgrades@.len(),
            forall|i: int| 0 <= i < self.ready_upgrades@.len() ==> upgrade_saved_from(#[trigger] r.ready_upgrades@[i], self.ready_upgrades@[i]),
            r.pending_upgrades@.len() == self.pending_upgrades@.len(),
            forall|i: int| 0 <= i < self.pending_upgrades@.len() ==> upgrade_saved_from(#[trigger] r.pending_upgrades@[i], self.pending_upgrades@[i]),
    {
        UpgradeListSave::new(self.ready_upgrades, self.pending_upgrades)
    }
}

/// `u` is what loading `s` gives.
pub open spec fn loaded_upgrade(u: Upgrade, s: UpgradeSave) -> bool {
    &&& u.effected_generator.res_type.id == s.effected_generator.res_type
    &&& u.effected_generator.res_type.is_catalogued()
    &&& u.effected_generator.idx == s.effected_generator.idx
    &&& u.speed_multiplier == crate::upgrades::upgrade_save::narrow(s.speed_modifier)
    &&& u.output_multiplier == crate::upgrades::upgrade_save::narrow(s.output_modifier)
    &&& u.generator_name == s.generator_name
    &&& u.description == s.description
    &&& u.name == s.name
    &&& u.cost@ == s.cost@
    &&& u.requirements@ == s.requirements@
    &&& !u.selected
}

/// Loads every saved upgrade, in order.
pub fn load_all(list: &Vec<UpgradeSave>) -> (r: Vec<Upgrade>)
    requires
        forall|i: int| 0 <= i < list@.len() ==> (#[trigger] list@[i]).loadable(),
    ensures
        r@.len() == list@.len(),
        forall|i: int| 0 <= i < list@.len() ==> loaded_upgrade(#[trigger] r@[i], list@[i]),
{
    let mut out: Vec<Upgrade> = Vec::new();
    let mut i: usize = 0;
    while i < list.len()
        invariant
            0 <= i <= list@.len(),
            forall|j: int| 0 <= j < list@.len() ==> (#[trigger] list@[j]).loadable(),
            out@.len() == i,
            forall|j: int| 0 <= j < i ==> loaded_upgrade(#[trigger] out@[j], list@[j]),
        decreases list@.len() - i,
    {
        out.push(list[i].to_upgr());
        i += 1;
    }
    out
}

} // verus!
