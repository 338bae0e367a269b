//! The list of every generator of a game: which are still waiting to be
//! unlocked, and which one each identifier names.
use std::collections::VecDeque;
use vstd::prelude::*;

use crate::generator::{Generator, GeneratorID, GeneratorRefCellWrapper};
use crate::generator::generator_save::{GeneratorListSave, GeneratorSave, generator_saved_as};
use crate::resources::ResourceType;
use crate::resources::resource_change::ResourceChange;
use crate::upgrades::Upgrade;

verus! {

/// The parameters of the `k`-th generator of a new game:
/// (resource position, ticks per harvest, price growth in hundredths,
/// starting amount, yield per harvest, rank among its resource's generators).
pub open spec fn catalogue_params(k: int) -> (usize, usize, u32, usize, usize, usize) {
    if k == 0 {
        (0, 20, 105, 1, 1, 0)
    } else if k == 1 {
        (1, 40, 107, 0, 1, 0)
    } else if k == 2 {
        (2, 60, 109, 0, 1, 0)
    } else if k == 3 {
        (0, 10, 104, 0, 2, 1)
    } else if k == 4 {
        (1, 10, 104, 0, 2, 1)
    } else if k == 5 {
        (3, 20, 112, 0, 1, 0)
    } else if k == 6 {
        (2, 20, 109, 0, 1, 0)
    } else if k == 7 {
        (4, 80, 119, 0, 1, 0)
    } else {
        (5, 100, 123, 0, 1, 0)
    }
}

/// The base price of the `k`-th generator of a new game, per resource.
pub open spec fn catalogue_costs(k: int) -> Seq<usize> {
    if k == 0 {
        seq![25, 0, 0, 0, 0, 0, 0]
    } else if k == 1 {
        seq![50, 0, 0, 0, 0, 0, 0]
    } else if k == 2 {
        seq![0, 50, 0, 0, 0, 0, 0]
    } else if k == 3 {
        seq![10, 0, 5, 0, 0, 0, 0]
    } else if k == 4 {
        seq![20, 0, 10, 0, 0, 0, 0]
    } else if k == 5 {
        seq![0, 0, 15, 0, 0, 0, 0]
    } else if k == 6 {
        seq![0, 0, 20, 30, 0, 0, 0]
    } else if k == 7 {
        seq![100, 100, 100, 100, 0, 0, 0]
    } else {
        seq![150, 150, 0, 200, 0, 0, 0]
    }
}

/// The name of the `k`-th generator of a new game.
pub open spec fn catalogue_name(k: int) -> Seq<char> {
    if k == 0 {
        "Punching Tree"@
    } else if k == 1 {
        "Hitting rocks with sticks"@
    } else if k == 2 {
        "Hitting shinier rocks with more rocks"@
    } else if k == 3 {
        "Actual Axes"@
    } else if k == 4 {
        "Actual Pickaxes"@
    } else if k == 5 {
        "Breaking into Houses to Steal their Wiring"@
    } else if k == 6 {
        "Electric Drills"@
    } else if k == 7 {
        "Sieging the Vault"@
    } else {
        "Artisanal Ruby Mine"@
    }
}

/// Number of generators in a new game.
pub const CATALOGUE_LEN: usize = 9;

/// `g` is the `k`-th generator of a new game, untouched.
pub open spec fn is_catalogue_generator(g: Generator, k: int) -> bool {
    let (res, ticks, coeff, start, aph, idx) = catalogue_params(k);
    &&& g.resource_type.id == res
    &&& g.resource_type.is_catalogued()
    &&& g.progress == 0
    &&& g.ticks_per == ticks
    &&& g.purchase_costs@ == catalogue_costs(k)
    &&& g.cost_coeff == coeff
    &&& g.current_bought == start
    &&& g.initial_bought == start
    &&& g.amount_per_harvest == aph
    &&& g.generator_name@ == catalogue_name(k)
    &&& g.id.res_type == g.resource_type
    &&& g.id.idx == idx
    &&& !g.selected
}

/// The position of the last generator in `gens` named by `id`.
pub open spec fn find_last(gens: Seq<GeneratorRefCellWrapper>, id: GeneratorID) -> Option<int>
    decreases gens.len(),
{
    if gens.len() == 0 {
        None
    } else if gens.last().gener.id.same(id) {
        Some(gens.len() - 1)
    } else {
        find_last(gens.drop_last(), id)
    }
}

/// `gens` after `upgrade` is applied to the generator it names, if any.
pub open spec fn apply_upgrade_to(gens: Seq<GeneratorRefCellWrapper>, upgrade: Upgrade) -> Seq<GeneratorRefCellWrapper> {
    match find_last(gens, upgrade.effected_generator) {
        Some(p) => gens.update(p, GeneratorRefCellWrapper { gener: gens[p].gener.upgraded(upgrade), idx: gens[p].idx }),
        None => gens,
    }
}

/// The saves are in non-decreasing order of `idx`.
pub open spec fn sorted_by_idx(s: Seq<GeneratorSave>) -> bool {
    forall|i: int, j: int| 0 <= i < j < s.len() ==> s[i].idx <= s[j].idx
}

/// `g` is what loading `s` gives.
pub open spec fn loaded_from(g: Generator, s: GeneratorSave) -> bool {
    &&& g.resource_type.id == s.resource_type
    &&& g.resource_type.is_catalogued()
    &&& g.progress == 0
    &&& g.ticks_per == s.ticks_per
    &&& g.purchase_costs@ == s.purchase_costs@
    &&& g.cost_coeff == s.cost_coeff
    &&& g.current_bought == s.current_bought
    &&& g.initial_bought == s.initial_bought
    &&& g.amount_per_harvest == s.amount_per_harvest
    &&& g.generator_name == s.generator_name
    &&& g.id.res_type.id == s.id.res_type
    &&& g.id.res_type.is_catalogued()
    &&& g.id.idx == s.id.idx
    &&& !g.selected
}

/// `s` is the saved form of wrapped generator `w`, not on show.
pub open spec fn saved_from(s: GeneratorSave, w: GeneratorRefCellWrapper) -> bool {
    generator_saved_as(s, w.gener, false, w.idx)
}

/// `gens`, with `waiting` as its line, is what loading the waiting
/// generators `saves` gives: the saves in order of their order numbers, the
/// `k`-th at position `k` with order number `2 * k`, all waiting, the last
/// position unlocked first.
pub open spec fn loaded_gens(gens: Seq<GeneratorRefCellWrapper>, waiting: Seq<usize>, saves: Seq<GeneratorSave>) -> bool {
    &&& gens.len() == saves.len()
    &&& waiting == Seq::new(saves.len(), |i: int| (saves.len() - 1 - i) as usize)
    &&& exists|s: Seq<GeneratorSave>| {
        &&& is_stable_sort_of(s, saves)
        &&& s.len() == gens.len()
        &&& forall|k: int| 0 <= k < s.len() ==> loaded_from(#[trigger] gens[k].gener, s[k])
        &&& forall|k: int| 0 <= k < s.len() ==> (#[trigger] gens[k]).idx == 2 * k
    }
}

/// `r` is the list that loading the waiting generators `saves` gives.
pub open spec fn loaded_list(r: GeneratorList, saves: Seq<GeneratorSave>) -> bool {
    &&& r.wf()
    &&& r.count == 2 * saves.len()
    &&& loaded_gens(r.generators@, r.not_yet_used@, saves)
}

/// `saved` is the saved form of the generators at positions `waiting` of
/// `gens`, in that order, marked as not on show.
pub open spec fn saved_gens(saved: Seq<GeneratorSave>, gens: Seq<GeneratorRefCellWrapper>, waiting: Seq<usize>) -> bool {
    &&& saved.len() == waiting.len()
    &&& forall|i: int| 0 <= i < waiting.len() ==> saved_from(#[trigger] saved[i], gens[waiting[i] as int])
}

/// `r` is the saved form of the waiting generators of `l`, front of the line first.
pub open spec fn saved_list(r: GeneratorListSave, l: GeneratorList) -> bool {
    saved_gens(r.generators@, l.generators@, l.not_yet_used@)
}

/// The order numbers of the generators at positions `waiting` of `gens`
/// decrease from the front of the line to the back.
pub open spec fn waiting_ordered(gens: Seq<GeneratorRefCellWrapper>, waiting: Seq<usize>) -> bool {
    forall|a: int, b: int| 0 <= a < b < waiting.len() ==> gens[waiting[a] as int].idx > gens[waiting[b] as int].idx
}

/// A strictly decreasing map from `0..n` into `0..n` is `k -> n - 1 - k`.
pub proof fn lemma_decreasing_is_reversal(sigma: Seq<int>, n: int)
    requires
        sigma.len() == n,
        forall|k: int| 0 <= k < n ==> 0 <= #[trigger] sigma[k] < n,
        forall|a: int, b: int| 0 <= a < b < n ==> #[trigger] sigma[a] > #[trigger] sigma[b],
    ensures
        forall|k: int| 0 <= k < n ==> #[trigger] sigma[k] == n - 1 - k,
{
    assert forall|k: int| 0 <= k < n implies #[trigger] sigma[k] == n - 1 - k by {
        lemma_decreasing_lower(sigma, n, k);
        lemma_decreasing_upper(sigma, n, k);
    }
}

proof fn lemma_decreasing_lower(sigma: Seq<int>, n: int, k: int)
    requires
        sigma.len() == n,
        0 <= k < n,
        forall|j: int| 0 <= j < n ==> 0 <= #[trigger] sigma[j] < n,
        forall|a: int, b: int| 0 <= a < b < n ==> #[trigger] sigma[a] > #[trigger] sigma[b],
    ensures
        sigma[k] >= n - 1 - k,
    decreases n - k,
{
    if k < n - 1 {
        lemma_decreasing_lower(sigma, n, k + 1);
        assert(sigma[k] > sigma[k + 1]);
    } else {
        assert(sigma[k] >= 0);
    }
}

proof fn lemma_decreasing_upper(sigma: Seq<int>, n: int, k: int)
    requires
        sigma.len() == n,
        0 <= k < n,
        forall|j: int| 0 <= j < n ==> 0 <= #[trigger] sigma[j] < n,
        forall|a: int, b: int| 0 <= a < b < n ==> #[trigger] sigma[a] > #[trigger] sigma[b],
    ensures
        sigma[k] <= n - 1 - k,
    decreases k,
{
    if k > 0 {
        lemma_decreasing_upper(sigma, n, k - 1);
        assert(sigma[k - 1] > sigma[k]);
    }
}

/// Saving the waiting generators of a list the game built and loading them
/// back keeps the line: the `j`-th generator from the front is the same
/// generator as before, except that its progress restarts at zero and it is
/// not highlighted.
pub proof fn law_save_load_keeps_waiting_line(
    gens: Seq<GeneratorRefCellWrapper>,
    waiting: Seq<usize>,
    saved: Seq<GeneratorSave>,
    rgens: Seq<GeneratorRefCellWrapper>,
    rwaiting: Seq<usize>,
)
    requires
        forall|i: int| 0 <= i < waiting.len() ==> #[trigger] waiting[i] < gens.len(),
        waiting_ordered(gens, waiting),
        saved_gens(saved, gens, waiting),
        loaded_gens(rgens, rwaiting, saved),
        saved.len() <= usize::MAX,
    ensures
        rwaiting.len() == waiting.len(),
        forall|j: int| 0 <= j < waiting.len() ==>
            (#[trigger] rgens[rwaiting[j] as int]).gener == (Generator {
                progress: 0,
                selected: false,
                ..gens[waiting[j] as int].gener
            }),
{
    let v = saved;
    let n = v.len() as int;
    let w = waiting;
    let s = choose|s: Seq<GeneratorSave>| {
        &&& is_stable_sort_of(s, v)
        &&& s.len() == rgens.len()
        &&& forall|k: int| 0 <= k < s.len() ==> loaded_from(#[trigger] rgens[k].gener, s[k])
        &&& forall|k: int| 0 <= k < s.len() ==> (#[trigger] rgens[k]).idx == 2 * k
    };
    let sigma = choose|sigma: Seq<int>| {
        &&& reordered_by(s, v, sigma)
        &&& sorted_by_idx(s)
        &&& forall|k1: int, k2: int| 0 <= k1 < k2 < s.len() && s[k1].idx == s[k2].idx ==> #[trigger] sigma[k1] < #[trigger] sigma[k2]
    };
    assert forall|a: int, b: int| 0 <= a < b < n implies v[a].idx > v[b].idx by {
        assert(saved_from(v[a], gens[w[a] as int]));
        assert(saved_from(v[b], gens[w[b] as int]));
    }
    assert forall|a: int, b: int| 0 <= a < b < n implies #[trigger] sigma[a] > #[trigger] sigma[b] by {
        assert(s[a].idx <= s[b].idx);
        assert(s[a] == v[sigma[a]]);
        assert(s[b] == v[sigma[b]]);
        if sigma[a] < sigma[b] {
            assert(v[sigma[a]].idx > v[sigma[b]].idx);
        }
        assert(sigma[a] != sigma[b]);
    }
    lemma_decreasing_is_reversal(sigma, n);
    assert forall|j: int| 0 <= j < w.len() implies
        (#[trigger] rgens[rwaiting[j] as int]).gener == (Generator {
            progress: 0,
            selected: false,
            ..gens[w[j] as int].gener
        }) by {
        let k = n - 1 - j;
        assert(rwaiting[j] == k as usize);
        assert((k as usize) as int == k);
        assert(sigma[k] == j);
        assert(s[k] == v[j]);
        assert(loaded_from(rgens[k].gener, s[k]));
        assert(saved_from(v[j], gens[w[j] as int]));
        crate::generator::law_generator_save_roundtrip(
            gens[w[j] as int].gener,
            v[j],
            false,
            gens[w[j] as int].idx,
            rgens[k].gener,
        );
    }
}

/// Every generator of a game. Generators are never removed: a position in
/// `generators` names the same generator for the life of the list.
pub struct GeneratorList {
    /// Every generator received, in the order received.
    pub generators: Vec<GeneratorRefCellWrapper>,
    /// Positions of the generators still waiting to be unlocked; the last is
    /// unlocked next, new ones join at the front.
    pub not_yet_used: VecDeque<usize>,
    /// The order number the next generator receives.
    pub count: u64,
}

impl GeneratorList {
    /// Every waiting position names a generator.
    pub open spec fn wf(&self) -> bool {
        forall|i: int| 0 <= i < self.not_yet_used@.len() ==> #[trigger] self.not_yet_used@[i] < self.generators@.len()
    }

    /// The waiting generators' order numbers decrease from the front of the
    /// line to the back and are all below the next order number.
    pub open spec fn waiting_in_order(&self) -> bool {
        let w = self.not_yet_used@;
        &&& waiting_ordered(self.generators@, w)
        &&& forall|a: int| 0 <= a < w.len() ==> self.generators@[w[a] as int].idx < self.count
    }

    /// The generator named by `id`, if any: the last one received with that
    /// identifier.
    pub open spec fn lookup(&self, id: GeneratorID) -> Option<int> {
        find_last(self.generators@, id)
    }

    /// The generators of a new game, none unlocked yet; the first of the
    /// catalogue is unlocked first.
    pub fn default() -> (r: Self)
        ensures
            r.wf(),
            r.generators@.len() == CATALOGUE_LEN,
            forall|k: int| 0 <= k < CATALOGUE_LEN ==> is_catalogue_generator(#[trigger] r.generators@[k].gener, k),
            forall|k: int| 0 <= k < CATALOGUE_LEN ==> (#[trigger] r.generators@[k]).idx == k,
            r.not_yet_used@ == seq![8usize, 7, 6, 5, 4, 3, 2, 1, 0],
            r.count == CATALOGUE_LEN,
            r.waiting_in_order(),
    {
        let wood = ResourceType::wood();
        let stone = ResourceType::stone();
        let iron = ResourceType::iron();
        let copper = ResourceType::copper();
        let gold = ResourceType::gold();
        let ruby = ResourceType::ruby();
        let mut future_self = Self { not_yet_used: VecDeque::new(), generators: Vec::new(), count: 0 };
        let punch_tree = Generator::blank(wood, 20, 105, 1, 1, "Punching Tree".to_owned(), 0)
            .add_cost((wood, 25));
        let hit_rock = Generator::blank(stone, 40, 107, 0, 1, "Hitting rocks with sticks".to_owned(), 0)
            .add_cost((wood, 50));
        future_self.add_gen(punch_tree);
        future_self.add_gen(hit_rock);
        future_self.add_gen(
            Generator::blank(iron, 60, 109, 0, 1, "Hitting shinier rocks with more rocks".to_owned(), 0)
                .add_cost((stone, 50)),
        );
        future_self.add_gen(
            Generator::blank(wood, 10, 104, 0, 2, "Actual Axes".to_owned(), 1)
                .add_cost((wood, 10))
                .add_cost((iron, 5)),
        );
        future_self.add_gen(
            Generator::blank(stone, 10, 104, 0, 2, "Actual Pickaxes".to_owned(), 1)
                .add_cost((wood, 20))
                .add_cost((iron, 10)),
        );
        future_self.add_gen(
            Generator::blank(
                copper,
                20,
                112,
                0,
                1,
                "Breaking into Houses to Steal their Wiring".to_owned(),
                0,
            ).add_cost((iron, 15)),
        );
        future_self.add_gen(
            Generator::blank(iron, 20, 109, 0, 1, "Electric Drills".to_owned(), 0)
                .add_cost((copper, 30))
                .add_cost((iron, 20)),
        );
        future_self.add_gen(
            Generator::blank(gold, 80, 119, 0, 1, "Sieging the Vault".to_owned(), 0)
                .add_cost((iron, 100))
                .add_cost((stone, 100))
                .add_cost((wood, 100))
                .add_cost((copper, 100)),
        );
        future_self.add_gen(
            Generator::blank(ruby, 100, 123, 0, 1, "Artisanal Ruby Mine".to_owned(), 0)
                .add_cost((wood, 150))
                .add_cost((stone, 150))
                .add_cost((copper, 200)),
        );
        assert(future_self.not_yet_used@ =~= seq![8usize, 7, 6, 5, 4, 3, 2, 1, 0]);
        assert forall|a: int, b: int| 0 <= a < b < future_self.not_yet_used@.len() implies
            future_self.generators@[future_self.not_yet_used@[a] as int].idx
                > future_self.generators@[future_self.not_yet_used@[b] as int].idx by {
        }
        assert forall|k: int| 0 <= k < CATALOGUE_LEN implies is_catalogue_generator(
            #[trigger] future_self.generators@[k].gener,
            k,
        ) by {
            assert(future_self.generators@[k].gener.purchase_costs@ =~= catalogue_costs(k));
        }
        future_self
    }

    /// Hands out the next generator waiting to be unlocked, by position.
    pub fn get_next(&mut self) -> (r: Option<usize>)
        ensures
            final(self).generators == old(self).generators,
            final(self).count == old(self).count,
            old(self).not_yet_used@.len() == 0 ==> r is None && final(self).not_yet_used@ == old(self).not_yet_used@,
            old(self).not_yet_used@.len() > 0 ==> {
                &&& r == Some(old(self).not_yet_used@.last())
                &&& final(self).not_yet_used@ == old(self).not_yet_used@.drop_last()
            },
            old(self).wf() ==> final(self).wf(),
            old(self).waiting_in_order() ==> final(self).waiting_in_order(),
    {
        self.not_yet_used.pop_back()
    }

    /// Receives a new generator: it takes the next order number and joins
    /// the front of the waiting line.
    fn add_gen(&mut self, gener: Generator)
        requires
            old(self).count < u64::MAX,
            old(self).generators@.len() < usize::MAX,
        ensures
            final(self).generators@ == old(self).generators@.push(
                GeneratorRefCellWrapper { gener, idx: old(self).count },
            ),
            final(self).not_yet_used@ == seq![old(self).generators@.len() as usize] + old(self).not_yet_used@,
            final(self).count == old(self).count + 1,
            old(self).wf() ==> final(self).wf(),
            old(self).wf() && old(self).waiting_in_order() ==> final(self).waiting_in_order(),
    {
        let pos = self.generators.len();
        let gen_ref = GeneratorRefCellWrapper::new(gener, self.count);
        self.count += 1;
        self.generators.push(gen_ref);
        self.not_yet_used.push_front(pos);
        assert(self.not_yet_used@ =~= seq![pos] + old(self).not_yet_used@);
        proof {
            if old(self).wf() && old(self).waiting_in_order() {
                let w = self.not_yet_used@;
                assert forall|a: int, b: int| 0 <= a < b < w.len() implies
                    self.generators@[w[a] as int].idx > self.generators@[w[b] as int].idx by {
                    assert(w[b] == old(self).not_yet_used@[b - 1]);
                    if a > 0 {
                        assert(w[a] == old(self).not_yet_used@[a - 1]);
                    }
                }
                assert forall|a: int| 0 <= a < w.len() implies self.generators@[w[a] as int].idx < self.count by {
                    if a > 0 {
                        assert(w[a] == old(self).not_yet_used@[a - 1]);
                    }
                }
            }
        }
    }

    /// The position of the generator named by `id`, if any.
    pub fn find(&self, id: GeneratorID) -> (r: Option<usize>)
        ensures
            r matches Some(p) ==> self.lookup(id) == Some(p as int),
            r is None ==> self.lookup(id) is None,
    {
        let mut i: usize = self.generators.len();
        assert(self.generators@.take(i as int) =~= self.generators@);
        while i > 0
            invariant
                0 <= i <= self.generators@.len(),
                find_last(self.generators@, id) == find_last(self.generators@.take(i as int), id),
            decreases i,
        {
            let ghost s = self.generators@.take(i as int);
            assert(s.drop_last() =~= self.generators@.take(i - 1));
            if self.generators[i - 1].gener.id == id {
                return Some(i - 1);
            }
            i -= 1;
        }
        assert(self.generators@.take(0) =~= Seq::<GeneratorRefCellWrapper>::empty());
        None
    }

    /// The inputs on which `apply_upgrade` runs without a panic.
    pub open spec fn upgrade_safe(&self, upgrade: Upgrade) -> bool {
        self.lookup(upgrade.effected_generator) matches Some(p) ==> self.generators@[p].gener.upgrade_safe(upgrade)
    }

    /// Whether `apply_upgrade` may be called with `upgrade`.
    pub fn is_upgrade_safe(&self, upgrade: &Upgrade) -> (r: bool)
        ensures
            r == self.upgrade_safe(*upgrade),
    {
        match self.find(upgrade.effected_generator) {
            Some(p) => {
                proof {
                    find_last_in_range(self.generators@, upgrade.effected_generator);
                }
                self.generators[p].gener.is_upgrade_safe(upgrade)
            },
            None => true,
        }
    }

    /// Applies `upgrade` to the generator it names, if the list has it.
    pub fn apply_upgrade(&mut self, upgrade: Upgrade)
        requires
            old(self).upgrade_safe(upgrade),
        ensures
            final(self).count == old(self).count,
            final(self).not_yet_used == old(self).not_yet_used,
            final(self).generators@.len() == old(self).generators@.len(),
            final(self).generators@ == apply_upgrade_to(old(self).generators@, upgrade),
    {
        if let Some(p) = self.find(upgrade.effected_generator) {
            proof {
                find_last_in_range(self.generators@, upgrade.effected_generator);
            }
            self.generators[p].upgrade(upgrade);
        }
        assert(self.generators@ =~= apply_upgrade_to(old(self).generators@, upgrade));
    }

    /// The name of the generator named by `id`, if any.
    pub fn get_gener_name(&self, id: GeneratorID) -> (r: Option<String>)
        ensures
            match self.lookup(id) {
                Some(p) => r == Some(self.generators@[p].gener.generator_name),
                None => r is None,
            },
    {
        if let Some(p) = self.find(id) {
            proof {
                find_last_in_range(self.generators@, id);
            }
            Some(self.generators[p].gener.generator_name.clone())
        } else {
            None
        }
    }

    /// Receives a generator that is already on show; it does not join the
    /// waiting line. Returns its position.
    pub fn add_in_app_gen(&mut self, gener: GeneratorRefCellWrapper) -> (r: usize)
        requires
            old(self).generators@.len() < usize::MAX,
        ensures
            r == old(self).generators@.len(),
            final(self).generators@ == old(self).generators@.push(gener),
            final(self).not_yet_used == old(self).not_yet_used,
            final(self).count == old(self).count,
            old(self).wf() ==> final(self).wf(),
            old(self).wf() && old(self).waiting_in_order() ==> final(self).waiting_in_order(),
    {
        let pos = self.generators.len();
        self.generators.push(gener);
        proof {
            if old(self).wf() && old(self).waiting_in_order() {
                let w = self.not_yet_used@;
                assert forall|a: int| 0 <= a < w.len() implies self.generators@[w[a] as int] == old(self).generators@[w[a] as int] by {
                }
            }
        }
        pos
    }

    /// Rebuilds the waiting generators from a save, in order of their saved
    /// order numbers; the `k`-th receives order number `2 * k`.
    pub fn from_save(saves: GeneratorListSave) -> (r: Self)
        requires
            forall|i: int| 0 <= i < saves.generators@.len() ==> (#[trigger] saves.generators@[i]).loadable(),
            2 * saves.generators@.len() <= u64::MAX,
        ensures
            loaded_list(r, saves.generators@),
            r.waiting_in_order(),
    {
        let ghost n = saves.generators@.len();
        let sorted = sort_by_idx(saves.generators);
        let mut new_me = GeneratorList { not_yet_used: VecDeque::new(), generators: Vec::new(), count: 0 };
        let mut i: usize = 0;
        proof {
            let sigma = choose|sigma: Seq<int>| {
                &&& reordered_by(sorted@, saves.generators@, sigma)
                &&& sorted_by_idx(sorted@)
                &&& forall|k1: int, k2: int| 0 <= k1 < k2 < sorted@.len() && sorted@[k1].idx == sorted@[k2].idx ==> #[trigger] sigma[k1] < #[trigger] sigma[k2]
            };
            assert forall|j: int| 0 <= j < sorted@.len() implies (#[trigger] sorted@[j]).loadable() by {
                assert(sorted@[j] == saves.generators@[sigma[j]]);
            }
        }
        while i < sorted.len()
            invariant
                0 <= i <= sorted@.len(),
                sorted@.len() == n,
                2 * n <= u64::MAX,
                forall|j: int| 0 <= j < sorted@.len() ==> (#[trigger] sorted@[j]).loadable(),
                new_me.wf(),
                new_me.generators@.len() == i,
                new_me.count == 2 * i,
                new_me.not_yet_used@ == Seq::new(i as nat, |j: int| (i - 1 - j) as usize),
                forall|k: int| 0 <= k < i ==> loaded_from(#[trigger] new_me.generators@[k].gener, sorted@[k]),
                forall|k: int| 0 <= k < i ==> (#[trigger] new_me.generators@[k]).idx == 2 * k,
            decreases sorted@.len() - i,
        {
            let g = sorted[i].to_gen();
            new_me.add_gen(g);
            new_me.count += 1;
            assert(new_me.not_yet_used@ =~= Seq::new((i + 1) as nat, |j: int| (i - j) as usize));
            i += 1;
        }
        proof {
            let w = new_me.not_yet_used@;
            assert forall|a: int, b: int| 0 <= a < b < w.len() implies
                new_me.generators@[w[a] as int].idx > new_me.generators@[w[b] as int].idx by {
                assert(w[a] == (n - 1 - a) as usize);
                assert(w[b] == (n - 1 - b) as usize);
            }
            assert forall|a: int| 0 <= a < w.len() implies new_me.generators@[w[a] as int].idx < new_me.count by {
                assert(w[a] == (n - 1 - a) as usize);
            }
        }
        new_me
    }

    /// The saved form of the generators still waiting, front of the line first.
    pub fn to_save(&self) -> (r: GeneratorListSave)
        requires
            self.wf(),
        ensures
            saved_list(r, *self),
    {
        let mut waiting: Vec<GeneratorRefCellWrapper> = Vec::new();
        let mut i: usize = 0;
        while i < self.not_yet_used.len()
            invariant
                self.wf(),
                0 <= i <= self.not_yet_used@.len(),
                waiting@.len() == i,
                forall|j: int| 0 <= j < i ==> #[trigger] waiting@[j] == self.generators@[self.not_yet_used@[j] as int],
            decreases self.not_yet_used@.len() - i,
        {
            let pos = self.not_yet_used[i];
            waiting.push(self.generators[pos].clone());
            i += 1;
        }
        let r = GeneratorListSave::new(waiting);
        assert forall|j: int| 0 <= j < self.not_yet_used@.len() implies
            saved_from(#[trigger] r.generators@[j], self.generators@[self.not_yet_used@[j] as int]) by {
            assert(waiting@[j] == self.generators@[self.not_yet_used@[j] as int]);
        }
        r
    }

    /// The generator at position `pos`.
    pub fn get(&self, pos: usize) -> (r: &GeneratorRefCellWrapper)
        requires
            pos < self.generators@.len(),
        ensures
            *r == self.generators@[pos as int],
    {
        &self.generators[pos]
    }

    /// Advances the generator at position `pos` by one tick.
    pub fn tick_at(&mut self, pos: usize) -> (r: ResourceChange)
        requires
            pos < old(self).generators@.len(),
            old(self).generators@[pos as int].gener.tick_safe(),
        ensures
            final(self).count == old(self).count,
            final(self).not_yet_used == old(self).not_yet_used,
            final(self).generators@ == old(self).generators@.update(
                pos as int,
                GeneratorRefCellWrapper {
                    gener: old(self).generators@[pos as int].gener.after_tick(),
                    idx: old(self).generators@[pos as int].idx,
                },
            ),
            old(self).generators@[pos as int].gener.harvests_next() ==> (r matches ResourceChange::Increase { val }
                && val@ == old(self).generators@[pos as int].gener.harvest()),
            !old(self).generators@[pos as int].gener.harvests_next() ==> r is NoChange,
    {
        let r = self.generators[pos].gener.tick();
        assert(self.generators@ =~= old(self).generators@.update(
            pos as int,
            GeneratorRefCellWrapper {
                gener: old(self).generators@[pos as int].gener.after_tick(),
                idx: old(self).generators@[pos as int].idx,
            },
        ));
        r
    }

    /// Buys one more unit of the generator at position `pos`; returns the price.
    pub fn buy_at(&mut self, pos: usize) -> (r: ResourceChange)
        requires
            pos < old(self).generators@.len(),
            old(self).generators@[pos as int].gener.current_bought >= old(self).generators@[pos as int].gener.initial_bought,
            old(self).generators@[pos as int].gener.current_bought < usize::MAX,
        ensures
            final(self).count == old(self).count,
            final(self).not_yet_used == old(self).not_yet_used,
            final(self).generators@ == old(self).generators@.update(
                pos as int,
                GeneratorRefCellWrapper {
                    gener: Generator {
                        current_bought: (old(self).generators@[pos as int].gener.current_bought + 1) as usize,
                        ..old(self).generators@[pos as int].gener
                    },
                    idx: old(self).generators@[pos as int].idx,
                },
            ),
            r matches ResourceChange::Decrease { val } && val@ == old(self).generators@[pos as int].gener.cost(),
    {
        let r = self.generators[pos].gener.buy_next();
        assert(self.generators@ =~= old(self).generators@.update(
            pos as int,
            GeneratorRefCellWrapper {
                gener: Generator {
                    current_bought: (old(self).generators@[pos as int].gener.current_bought + 1) as usize,
                    ..old(self).generators@[pos as int].gener
                },
                idx: old(self).generators@[pos as int].idx,
            },
        ));
        r
    }

    /// Number of generators received.
    pub fn len(&self) -> (r: usize)
        ensures
            r == self.generators@.len(),
    {
        self.generators.len()
    }
}

/// A position found by `find_last` is in range and names `id`.
pub proof fn find_last_in_range(gens: Seq<GeneratorRefCellWrapper>, id: GeneratorID)
    ensures
        find_last(gens, id) matches Some(p) ==> 0 <= p < gens.len() && gens[p].gener.id.same(id),
    decreases gens.len(),
{
    if gens.len() > 0 && !gens.last().gener.id.same(id) {
        find_last_in_range(gens.drop_last(), id);
    }
}

/// `s` is `v` reordered by the positions `sigma`: `s[k]` is `v[sigma[k]]`,
/// and every position of `v` is used exactly once.
pub open spec fn reordered_by(s: Seq<GeneratorSave>, v: Seq<GeneratorSave>, sigma: Seq<int>) -> bool {
    &&& sigma.len() == s.len()
    &&& s.len() == v.len()
    &&& forall|k: int| 0 <= k < s.len() ==> 0 <= #[trigger] sigma[k] < v.len() && s[k] == v[sigma[k]]
    &&& forall|k1: int, k2: int| 0 <= k1 < k2 < s.len() ==> sigma[k1] != sigma[k2]
}

/// `s` is the stable sort of `v` by order number: a reordering of `v`, in
/// non-decreasing order of `idx`, where saves with the same `idx` keep their
/// relative order.
pub open spec fn is_stable_sort_of(s: Seq<GeneratorSave>, v: Seq<GeneratorSave>) -> bool {
    exists|sigma: Seq<int>| {
        &&& reordered_by(s, v, sigma)
        &&& sorted_by_idx(s)
        &&& forall|k1: int, k2: int| 0 <= k1 < k2 < s.len() && s[k1].idx == s[k2].idx ==> #[trigger] sigma[k1] < #[trigger] sigma[k2]
    }
}

/// Sorts saves by their order numbers, keeping saves with equal numbers in
/// their given order.
pub fn sort_by_idx(v: Vec<GeneratorSave>) -> (r: Vec<GeneratorSave>)
    ensures
        is_stable_sort_of(r@, v@),
{
    let ghost v0 = v@;
    let ghost n = v@.len();
    let mut input = v;
    let mut sorted: Vec<GeneratorSave> = Vec::new();
    let ghost mut sigma: Seq<int> = Seq::empty();
    let ghost mut i: int = 0;
    while input.len() > 0
        invariant
            0 <= i <= n,
            n == v0.len(),
            input@ == v0.subrange(i, n as int),
            sigma.len() == sorted@.len(),
            sorted@.len() == i,
            forall|k: int| 0 <= k < sorted@.len() ==> 0 <= #[trigger] sigma[k] < i && sorted@[k] == v0[sigma[k]],
            forall|k1: int, k2: int| 0 <= k1 < k2 < sorted@.len() ==> sigma[k1] != sigma[k2],
            sorted_by_idx(sorted@),
            forall|k1: int, k2: int| 0 <= k1 < k2 < sorted@.len() && sorted@[k1].idx == sorted@[k2].idx
                ==> #[trigger] sigma[k1] < #[trigger] sigma[k2],
        decreases input@.len(),
    {
        let e = input.remove(0);
        assert(e == v0[i]);
        let mut pos: usize = 0;
        while pos < sorted.len() && sorted[pos].idx <= e.idx
            invariant
                0 <= pos <= sorted@.len(),
                forall|j: int| 0 <= j < pos ==> sorted@[j].idx <= e.idx,
            decreases sorted@.len() - pos,
        {
            pos += 1;
        }
        let ghost old_sorted = sorted@;
        let ghost old_sigma = sigma;
        sorted.insert(pos, e);
        proof {
            sigma = old_sigma.insert(pos as int, i);
            assert forall|k: int| 0 <= k < sorted@.len() implies 0 <= #[trigger] sigma[k] < i + 1 && sorted@[k] == v0[sigma[k]] by {
                if k < pos {
                    assert(sigma[k] == old_sigma[k]);
                } else if k > pos {
                    assert(sigma[k] == old_sigma[k - 1]);
                }
            }
            assert forall|k1: int, k2: int| 0 <= k1 < k2 < sorted@.len() implies sigma[k1] != sigma[k2] by {
                if k1 < pos && k2 > pos {
                    assert(sigma[k2] == old_sigma[k2 - 1]);
                } else if k1 > pos {
                    assert(sigma[k1] == old_sigma[k1 - 1]);
                    assert(sigma[k2] == old_sigma[k2 - 1]);
                }
            }
            assert forall|a: int, b: int| 0 <= a < b < sorted@.len() implies sorted@[a].idx <= sorted@[b].idx by {
                if a < pos && b == pos {
                } else if a == pos && b > pos {
                    assert(sorted@[b] == old_sorted[b - 1]);
                    if pos < old_sorted.len() {
                        assert(old_sorted[pos as int].idx > e.idx);
                        assert(old_sorted[pos as int].idx <= old_sorted[b - 1].idx);
                    }
                } else if a < pos && b > pos {
                    assert(sorted@[b] == old_sorted[b - 1]);
                } else if a > pos {
                    assert(sorted@[a] == old_sorted[a - 1]);
                    assert(sorted@[b] == old_sorted[b - 1]);
                }
            }
            assert forall|k1: int, k2: int| 0 <= k1 < k2 < sorted@.len() && sorted@[k1].idx == sorted@[k2].idx
                implies #[trigger] sigma[k1] < #[trigger] sigma[k2] by {
                if k1 < pos && k2 == pos {
                    assert(sigma[k1] == old_sigma[k1]);
                } else if k1 == pos && k2 > pos {
                    assert(sorted@[k2] == old_sorted[k2 - 1]);
                    assert(old_sorted[pos as int].idx > e.idx);
                    assert(old_sorted[pos as int].idx <= old_sorted[k2 - 1].idx);
                } else if k1 < pos && k2 > pos {
                    assert(sigma[k1] == old_sigma[k1]);
                    assert(sigma[k2] == old_sigma[k2 - 1]);
                } else if k1 > pos {
                    assert(sigma[k1] == old_sigma[k1 - 1]);
                    assert(sigma[k2] == old_sigma[k2 - 1]);
                }
            }
            i = i + 1;
            assert(input@ =~= v0.subrange(i, n as int));
        }
    }
    proof {
        assert(reordered_by(sorted@, v0, sigma));
    }
    sorted
}

impl GeneratorList {
    /// Whether every waiting position names a generator.
    pub fn is_wf(&self) -> (r: bool)
        ensures
            r == self.wf(),
    {
        let n = self.generators.len();
        let mut i: usize = 0;
        while i < self.not_yet_used.len()
            invariant
                0 <= i <= self.not_yet_used@.len(),
                n == self.generators@.len(),
                forall|j: int| 0 <= j < i ==> #[trigger] self.not_yet_used@[j] < self.generators@.len(),
            decreases self.not_yet_used@.len() - i,
        {
            if self.not_yet_used[i] >= n {
                return false;
            }
            i += 1;
        }
        true
    }

    /// Whether the waiting generators' order numbers decrease from the front
    /// of the line to the back and are all below the next order number.
    pub fn is_waiting_in_order(&self) -> (r: bool)
        requires
            self.wf(),
        ensures
            r == self.waiting_in_order(),
    {
        let w = &self.not_yet_used;
        let gens = &self.generators;
        let mut a: usize = 0;
        while a < w.len()
            invariant
                self.wf(),
                w == &self.not_yet_used,
                gens == &self.generators,
                0 <= a <= w@.len(),
                forall|x: int| 0 <= x < a ==> gens@[w@[x] as int].idx < self.count,
                forall|x: int, y: int| 0 <= x < y < w@.len() && x < a ==>
                    gens@[w@[x] as int].idx > gens@[w@[y] as int].idx,
            decreases w@.len() - a,
        {
            let ia = gens[w[a]].idx;
            if ia >= self.count {
                return false;
            }
            let mut b: usize = a + 1;
            while b < w.len()
                invariant
                    self.wf(),
                    w == &self.not_yet_used,
                    gens == &self.generators,
                    a < w@.len(),
                    a + 1 <= b <= w@.len(),
                    ia == gens@[w@[a as int] as int].idx,
                    forall|y: int| a < y < b ==> ia > gens@[w@[y] as int].idx,
                decreases w@.len() - b,
            {
                if gens[w[b]].idx >= ia {
                    return false;
                }
                b += 1;
            }
            a += 1;
        }
        true
    }
}


} // verus!
