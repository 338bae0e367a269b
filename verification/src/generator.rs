//! Generators: machines that periodically yield one resource, and whose price
//! grows with every purchase.
use vstd::prelude::*;

pub mod generator_list;
pub mod generator_save;

use crate::generator::generator_save::{GeneratorIDSave, GeneratorSave, generator_saved_as};
use crate::generator::generator_list::loaded_from;
use crate::resources::{ResourceType, RESOURCE_COUNT};
use crate::resources::resource_array::{ResValArray, zeros};
use crate::resources::resource_change::ResourceChange;
use crate::upgrades::Upgrade;

verus! {

/// Prices are grown in millionths of a unit, so that rounding each step down
/// costs at most a millionth per purchase.
pub const COST_SCALE: u128 = 1000000;

/// One past the largest scaled price that still rounds to a `usize`.
pub const COST_CAP: u128 = 18446744073709551616000000;

/// `v` grown `k` times by `coeff` hundredths, rounding down at each step.
pub open spec fn grown(v: nat, coeff: nat, k: nat) -> nat
    decreases k,
{
    if k == 0 {
        v
    } else {
        grown(v, coeff, (k - 1) as nat) * coeff / 100
    }
}

/// The price of an item whose base price is `base` after `k` purchases with
/// growth coefficient `coeff` (in hundredths): the base grown `k` times in
/// millionths, rounded down to whole units, capped at `usize::MAX`.
pub open spec fn grown_cost(base: usize, coeff: u32, k: nat) -> usize {
    let v = grown(base as nat * COST_SCALE as nat, coeff as nat, k) / COST_SCALE as nat;
    if v > usize::MAX { usize::MAX } else { v as usize }
}

/// With a coefficient of at least one (100 hundredths), growing never shrinks.
pub proof fn lemma_grown_monotone(v: nat, coeff: nat, j: nat, k: nat)
    requires
        coeff >= 100,
        j <= k,
    ensures
        grown(v, coeff, j) <= grown(v, coeff, k),
    decreases k,
{
    if j < k {
        lemma_grown_monotone(v, coeff, j, (k - 1) as nat);
        let x = grown(v, coeff, (k - 1) as nat);
        assert(x <= x * coeff / 100) by (nonlinear_arith)
            requires coeff >= 100;
    }
}

/// Computes `grown_cost(base, coeff, k)`.
pub fn grow_cost(base: usize, coeff: u32, k: usize) -> (r: usize)
    ensures
        r == grown_cost(base, coeff, k as nat),
{
    let ghost v0: nat = base as nat * COST_SCALE as nat;
    let mut v: u128 = base as u128 * COST_SCALE;
    assert(v < COST_CAP);
    let mut j: usize = 0;
    while j < k
        invariant
            0 <= j <= k,
            v0 == base as nat * COST_SCALE as nat,
            v as nat == grown(v0, coeff as nat, j as nat),
            v < COST_CAP || coeff >= 100,
            coeff < 100 ==> v <= v0,
            v <= COST_CAP * 4294967295,
        decreases k - j,
    {
        if coeff >= 100 && v >= COST_CAP {
            proof {
                lemma_grown_monotone(v0, coeff as nat, j as nat, k as nat);
                let g = grown(v0, coeff as nat, k as nat);
                assert(g / COST_SCALE as nat > usize::MAX) by (nonlinear_arith)
                    requires g >= COST_CAP, COST_CAP == 18446744073709551616000000u128, COST_SCALE == 1000000u128;
            }
            return usize::MAX;
        }
        assert(v < COST_CAP);
        assert(v * (coeff as u128) <= COST_CAP * 4294967295) by (nonlinear_arith)
            requires v < COST_CAP, coeff <= 4294967295u32;
        let next: u128 = v * (coeff as u128) / 100;
        proof {
            assert(next as nat == grown(v0, coeff as nat, (j + 1) as nat));
            if coeff < 100 {
                assert(next <= v) by (nonlinear_arith)
                    requires coeff < 100, next == v * (coeff as u128) / 100;
            }
            assert(next <= COST_CAP * 4294967295) by (nonlinear_arith)
                requires next == v * (coeff as u128) / 100, v * (coeff as u128) <= COST_CAP * 4294967295;
        }
        v = next;
        j += 1;
    }
    let q: u128 = v / COST_SCALE;
    if q > usize::MAX as u128 {
        usize::MAX
    } else {
        q as usize
    }
}

/// Identifies a generator: the resource it yields and its rank among the
/// generators of that resource.
#[derive(Clone, Copy, Hash)]
pub struct GeneratorID {
    pub res_type: ResourceType,
    pub idx: usize,
}

impl GeneratorID {
    /// Two identifiers name the same generator when they agree on the resource
    /// position and the rank.
    pub open spec fn same(self, other: GeneratorID) -> bool {
        self.res_type.id == other.res_type.id && self.idx == other.idx
    }

    pub fn new(res_type: ResourceType, idx: usize) -> (r: Self)
        ensures
            r.res_type == res_type,
            r.idx == idx,
    {
        GeneratorID { res_type, idx }
    }

    /// The plain form kept in a save.
    pub fn to_save(&self) -> (r: GeneratorIDSave)
        ensures
            r.res_type == self.res_type.id,
            r.idx == self.idx,
    {
        GeneratorIDSave::new(self.res_type.id, self.idx)
    }
}

impl PartialEq for GeneratorID {
    fn eq(&self, other: &Self) -> (r: bool) {
        self.res_type.id == other.res_type.id && self.idx == other.idx
    }
}

impl vstd::std_specs::cmp::PartialEqSpecImpl for GeneratorID {
    open spec fn obeys_eq_spec() -> bool {
        true
    }

    open spec fn eq_spec(&self, other: &Self) -> bool {
        self.same(*other)
    }
}

impl Eq for GeneratorID {}

/// A generator of one resource.
pub struct Generator {
    /// The resource it yields.
    pub resource_type: ResourceType,
    /// Ticks elapsed since the last harvest.
    pub progress: usize,
    /// Ticks between harvests.
    pub ticks_per: usize,
    /// The price of the first purchase beyond the starting amount.
    pub purchase_costs: ResValArray,
    /// Growth of the price per purchase, in hundredths (105 is +5%).
    pub cost_coeff: u32,
    /// Units owned.
    pub current_bought: usize,
    /// Units owned at the start.
    pub initial_bought: usize,
    /// Units of resource each owned unit yields per harvest.
    pub amount_per_harvest: usize,
    pub generator_name: String,
    pub id: GeneratorID,
    /// Whether the generator is highlighted in its list.
    pub selected: bool,
}

impl Generator {
    /// Whether the next tick harvests.
    pub open spec fn harvests_next(&self) -> bool {
        self.current_bought > 0 && self.progress + 1 >= self.ticks_per
    }

    /// The inputs on which `tick` runs without a panic: an owned generator
    /// needs a positive period, room to count one more tick, a resource in the
    /// catalogue, and a harvest that fits in a `usize`.
    pub open spec fn tick_safe(&self) -> bool {
        self.current_bought > 0 ==> {
            &&& self.ticks_per > 0
            &&& self.progress < usize::MAX
            &&& self.resource_type.id < RESOURCE_COUNT
            &&& self.progress + 1 >= self.ticks_per ==> self.current_bought * self.amount_per_harvest <= usize::MAX
        }
    }

    /// The amounts one harvest yields.
    pub open spec fn harvest(&self) -> Seq<usize> {
        zeros().update(self.resource_type.id as int, (self.current_bought * self.amount_per_harvest) as usize)
    }

    /// The generator after one tick.
    pub open spec fn after_tick(&self) -> Generator {
        if self.current_bought == 0 {
            *self
        } else if self.progress + 1 >= self.ticks_per {
            Generator { progress: ((self.progress + 1) % (self.ticks_per as int)) as usize, ..*self }
        } else {
            Generator { progress: (self.progress + 1) as usize, ..*self }
        }
    }

    /// The generator after `upgrade`: a speed multiplier divides the period,
    /// an output multiplier multiplies the yield per harvest.
    pub open spec fn upgraded(&self, upgrade: Upgrade) -> Generator {
        Generator {
            ticks_per: match upgrade.speed_multiplier {
                Some(s) => (self.ticks_per / s) as usize,
                None => self.ticks_per,
            },
            amount_per_harvest: match upgrade.output_multiplier {
                Some(o) => (self.amount_per_harvest * o) as usize,
                None => self.amount_per_harvest,
            },
            ..*self
        }
    }

    /// The inputs on which `upgrade` runs without a panic.
    pub open spec fn upgrade_safe(&self, upgrade: Upgrade) -> bool {
        &&& upgrade.speed_multiplier matches Some(s) ==> s != 0
        &&& upgrade.output_multiplier matches Some(o) ==> self.amount_per_harvest * o <= usize::MAX
    }

    /// The price of the next purchase.
    pub open spec fn cost(&self) -> Seq<usize> {
        Seq::new(
            RESOURCE_COUNT as nat,
            |i: int| grown_cost(self.purchase_costs@[i], self.cost_coeff, (self.current_bought - self.initial_bought) as nat),
        )
    }

    /// A generator with no price yet, owning `starting_amount` units.
    pub fn blank(
        resource_type: ResourceType,
        ticks_per: usize,
        cost_coeff: u32,
        starting_amount: usize,
        amount_per_harvest: usize,
        generator_name: String,
        idx: usize,
    ) -> (r: Self)
        ensures
            r.resource_type == resource_type,
            r.progress == 0,
            r.ticks_per == ticks_per,
            r.purchase_costs@ == zeros(),
            r.cost_coeff == cost_coeff,
            r.current_bought == starting_amount,
            r.initial_bought == starting_amount,
            r.amount_per_harvest == amount_per_harvest,
            r.generator_name == generator_name,
            r.id == (GeneratorID { res_type: resource_type, idx }),
            !r.selected,
    {
        Self {
            resource_type,
            progress: 0,
            ticks_per,
            purchase_costs: ResValArray::new(),
            cost_coeff,
            current_bought: starting_amount,
            initial_bought: starting_amount,
            amount_per_harvest,
            generator_name,
            id: GeneratorID { res_type: resource_type, idx },
            selected: false,
        }
    }

    /// Highlights the generator.
    pub fn select(&mut self)
        ensures
            *final(self) == (Generator { selected: true, ..*old(self) }),
    {
        if !self.selected {
            self.selected = true;
        }
    }

    /// Removes the highlight.
    pub fn deselect(&mut self)
        ensures
            *final(self) == (Generator { selected: false, ..*old(self) }),
    {
        if self.selected {
            self.selected = false;
        }
    }

    /// Advances an owned generator by one tick; when the period is reached it
    /// wraps the progress and yields `owned * amount_per_harvest` units of its
    /// resource. An unowned generator does nothing.
    pub fn tick(&mut self) -> (r: ResourceChange)
        requires
            old(self).tick_safe(),
        ensures
            *final(self) == old(self).after_tick(),
            old(self).harvests_next() ==> (r matches ResourceChange::Increase { val } && val@ == old(self).harvest()),
            !old(self).harvests_next() ==> r is NoChange,
    {
        if self.current_bought > 0 {
            self.progress += 1;
            if self.progress >= self.ticks_per && self.current_bought > 0 {
                self.progress %= self.ticks_per;
                let mut res_change = ResValArray::new();
                res_change.set(self.resource_type.id, self.current_bought * self.amount_per_harvest);
                return ResourceChange::Increase { val: res_change };
            }
        }
        ResourceChange::NoChange
    }

    /// The price of the next purchase.
    pub fn get_cost(&self) -> (r: ResValArray)
        requires
            self.current_bought >= self.initial_bought,
        ensures
            r@ == self.cost(),
    {
        let k = self.current_bought - self.initial_bought;
        let mut result = ResValArray::new();
        let mut i: usize = 0;
        while i < RESOURCE_COUNT
            invariant
                0 <= i <= RESOURCE_COUNT,
                k == self.current_bought - self.initial_bought,
                result@.len() == RESOURCE_COUNT,
                forall|j: int| 0 <= j < i ==> result@[j] == grown_cost(self.purchase_costs@[j], self.cost_coeff, k as nat),
            decreases RESOURCE_COUNT - i,
        {
            let c = grow_cost(self.purchase_costs.index(i), self.cost_coeff, k);
            result.set(i, c);
            i += 1;
        }
        assert(result@ =~= self.cost());
        result
    }

    /// Units owned.
    pub fn get_count(&self) -> (r: usize)
        ensures
            r == self.current_bought,
    {
        self.current_bought
    }

    /// Buys one more unit: returns the price to pay and counts the unit.
    pub fn buy_next(&mut self) -> (r: ResourceChange)
        requires
            old(self).current_bought >= old(self).initial_bought,
            old(self).current_bought < usize::MAX,
        ensures
            r matches ResourceChange::Decrease { val } && val@ == old(self).cost(),
            *final(self) == (Generator { current_bought: (old(self).current_bought + 1) as usize, ..*old(self) }),
    {
        let change = ResourceChange::Decrease { val: self.get_cost() };
        self.current_bought += 1;
        change
    }

    /// Adds `cost.1` units of resource `cost.0` to the base price.
    pub fn add_cost(self, cost: (ResourceType, usize)) -> (r: Self)
        requires
            cost.0.id < RESOURCE_COUNT,
            self.purchase_costs@[cost.0.id as int] + cost.1 <= usize::MAX,
        ensures
            r.purchase_costs@ == self.purchase_costs@.update(
                cost.0.id as int,
                (self.purchase_costs@[cost.0.id as int] + cost.1) as usize,
            ),
            r == (Generator { purchase_costs: r.purchase_costs, ..self }),
    {
        let mut s = self;
        let old_cost = s.purchase_costs.index(cost.0.id);
        s.purchase_costs.set(cost.0.id, old_cost + cost.1);
        s
    }

    /// Applies an upgrade: a speed multiplier divides the period, an output
    /// multiplier multiplies the yield per harvest.
    pub fn upgrade(&mut self, upgrade: Upgrade)
        requires
            upgrade.speed_multiplier matches Some(s) ==> s != 0,
            upgrade.output_multiplier matches Some(o) ==> old(self).amount_per_harvest * o <= usize::MAX,
        ensures
            *final(self) == old(self).upgraded(upgrade),
    {
        if let Some(speed_mult) = upgrade.speed_multiplier {
            self.ticks_per /= speed_mult;
        }
        if let Some(out_mult) = upgrade.output_multiplier {
            self.amount_per_harvest *= out_mult;
        }
    }

    /// The plain form kept in a save.
    pub fn to_save(&self, in_app: bool, idx: u64) -> (r: GeneratorSave)
        ensures
            generator_saved_as(r, *self, in_app, idx),
    {
        GeneratorSave::new(
            self.resource_type.id,
            self.ticks_per,
            self.purchase_costs,
            self.cost_coeff,
            self.current_bought,
            self.initial_bought,
            self.amount_per_harvest,
            self.generator_name.clone(),
            self.id,
            in_app,
            idx,
        )
    }

    /// Rebuilds a generator from its saved form; progress restarts at zero.
    pub fn from_save(
        resource_type: usize,
        ticks_per: usize,
        purchase_costs: [usize; RESOURCE_COUNT],
        cost_coeff: u32,
        current_bought: usize,
        initial_bought: usize,
        amount_per_harvest: usize,
        generator_name: String,
        id: GeneratorIDSave,
    ) -> (r: Self)
        requires
            resource_type < RESOURCE_COUNT,
            id.res_type < RESOURCE_COUNT,
        ensures
            r.resource_type.id == resource_type,
            r.resource_type.is_catalogued(),
            r.progress == 0,
            r.ticks_per == ticks_per,
            r.purchase_costs@ == purchase_costs@,
            r.cost_coeff == cost_coeff,
            r.current_bought == current_bought,
            r.initial_bought == initial_bought,
            r.amount_per_harvest == amount_per_harvest,
            r.generator_name == generator_name,
            r.id.res_type.id == id.res_type,
            r.id.res_type.is_catalogued(),
            r.id.idx == id.idx,
            !r.selected,
    {
        Self {
            resource_type: ResourceType::from_id(resource_type),
            progress: 0,
            ticks_per,
            purchase_costs: ResValArray(purchase_costs),
            cost_coeff,
            current_bought,
            initial_bought,
            amount_per_harvest,
            generator_name,
            id: id.to_id(),
            selected: false,
        }
    }

    /// Whether `tick` may be called.
    pub fn is_tick_safe(&self) -> (r: bool)
        ensures
            r == self.tick_safe(),
    {
        if self.current_bought == 0 {
            return true;
        }
        if self.ticks_per == 0 || self.progress == usize::MAX || self.resource_type.id >= RESOURCE_COUNT {
            return false;
        }
        if self.progress + 1 >= self.ticks_per {
            self.current_bought.checked_mul(self.amount_per_harvest).is_some()
        } else {
            true
        }
    }

    /// Whether `upgrade` may be applied.
    pub fn is_upgrade_safe(&self, upgrade: &Upgrade) -> (r: bool)
        ensures
            r == self.upgrade_safe(*upgrade),
    {
        let speed_ok = match upgrade.speed_multiplier {
            Some(s) => s != 0,
            None => true,
        };
        let output_ok = match upgrade.output_multiplier {
            Some(o) => self.amount_per_harvest.checked_mul(o).is_some(),
            None => true,
        };
        speed_ok && output_ok
    }

    /// Units of resource each owned unit yields per harvest.
    pub fn get_amount_per_harvest(&self) -> (r: usize)
        ensures
            r == self.amount_per_harvest,
    {
        self.amount_per_harvest
    }

    /// Ticks between harvests.
    pub fn get_ticks_per(&self) -> (r: usize)
        ensures
            r == self.ticks_per,
    {
        self.ticks_per
    }
}

/// An owned generator's progress stays below its period after every tick,
/// and it harvests exactly when its progress would reach the period.
pub proof fn law_tick_keeps_progress_below_period(g: Generator)
    requires
        g.tick_safe(),
        g.current_bought > 0,
    ensures
        g.after_tick().progress < g.ticks_per,
        g.harvests_next() <==> g.progress + 1 >= g.ticks_per,
{
}

/// Before any purchase beyond the starting amount, the price is the base price.
pub proof fn law_first_price_is_base(g: Generator)
    requires
        g.current_bought == g.initial_bought,
    ensures
        g.cost() == g.purchase_costs@,
{
    assert forall|i: int| 0 <= i < RESOURCE_COUNT implies #[trigger] g.cost()[i] == g.purchase_costs@[i] by {
        let b = g.purchase_costs@[i];
        assert((b as nat * COST_SCALE as nat) / COST_SCALE as nat == b) by (nonlinear_arith)
            requires COST_SCALE == 1000000u128;
    }
    assert(g.cost() =~= g.purchase_costs@);
}

/// With a growth coefficient of at least one, buying a unit never makes the
/// next unit cheaper, in any resource.
pub proof fn law_price_never_falls(g: Generator)
    requires
        g.current_bought >= g.initial_bought,
        g.current_bought < usize::MAX,
        g.cost_coeff >= 100,
    ensures
        forall|i: int| 0 <= i < RESOURCE_COUNT ==>
            #[trigger] (Generator { current_bought: (g.current_bought + 1) as usize, ..g }).cost()[i] >= g.cost()[i],
{
    let g2 = Generator { current_bought: (g.current_bought + 1) as usize, ..g };
    let k = (g.current_bought - g.initial_bought) as nat;
    assert forall|i: int| 0 <= i < RESOURCE_COUNT implies #[trigger] g2.cost()[i] >= g.cost()[i] by {
        let v0 = g.purchase_costs@[i] as nat * COST_SCALE as nat;
        lemma_grown_monotone(v0, g.cost_coeff as nat, k, k + 1);
        let a = grown(v0, g.cost_coeff as nat, k);
        let b = grown(v0, g.cost_coeff as nat, k + 1);
        assert(a / COST_SCALE as nat <= b / COST_SCALE as nat) by (nonlinear_arith)
            requires a <= b, COST_SCALE == 1000000u128;
        assert(g2.cost()[i] == grown_cost(g.purchase_costs@[i], g.cost_coeff, k + 1));
    }
}

/// Saving a generator and loading it back gives the same generator, except
/// that its progress restarts at zero and it is not highlighted.
pub proof fn law_generator_save_roundtrip(g: Generator, s: GeneratorSave, in_app: bool, idx: u64, g2: Generator)
    requires
        generator_saved_as(s, g, in_app, idx),
        loaded_from(g2, s),
    ensures
        g2 == (Generator { progress: 0, selected: false, ..g }),
{
    vstd::array::axiom_array_ext_equal(g2.purchase_costs.0, g.purchase_costs.0);
    assert(g2.purchase_costs.0@ =~= g.purchase_costs.0@);
}

/// A generator together with the order in which its list received it.
pub struct GeneratorRefCellWrapper {
    pub gener: Generator,
    pub idx: u64,
}

impl GeneratorRefCellWrapper {
    pub fn new(gener: Generator, idx: u64) -> (r: Self)
        ensures
            r.gener == gener,
            r.idx == idx,
    {
        GeneratorRefCellWrapper { gener, idx }
    }

    /// A copy with the same generator and order.
    pub fn clone(&self) -> (r: Self)
        ensures
            r.gener == self.gener,
            r.idx == self.idx,
    {
        GeneratorRefCellWrapper {
            gener: Generator {
                resource_type: self.gener.resource_type,
                progress: self.gener.progress,
                ticks_per: self.gener.ticks_per,
                purchase_costs: self.gener.purchase_costs,
                cost_coeff: self.gener.cost_coeff,
                current_bought: self.gener.current_bought,
                initial_bought: self.gener.initial_bought,
                amount_per_harvest: self.gener.amount_per_harvest,
                generator_name: self.gener.generator_name.clone(),
                id: self.gener.id,
                selected: self.gener.selected,
            },
            idx: self.idx,
        }
    }

    /// The generator, for reading.
    pub fn borrow(&self) -> (r: &Generator)
        ensures
            *r == self.gener,
    {
        &self.gener
    }

    /// The generator, for changing.
    pub fn borrow_mut(&mut self) -> (r: &mut Generator)
        ensures
            *r == old(self).gener,
            final(self).gener == *final(r),
            final(self).idx == old(self).idx,
    {
        &mut self.gener
    }

    /// Applies an upgrade to the generator.
    pub fn upgrade(&mut self, upgrade: Upgrade)
        requires
            upgrade.speed_multiplier matches Some(s) ==> s != 0,
            upgrade.output_multiplier matches Some(o) ==> old(self).gener.amount_per_harvest * o <= usize::MAX,
        ensures
            final(self).idx == old(self).idx,
            final(self).gener == old(self).gener.upgraded(upgrade),
    {
        self.gener.upgrade(upgrade);
    }

    pub fn select(&mut self)
        ensures
            final(self).idx == old(self).idx,
            final(self).gener == (Generator { selected: true, ..old(self).gener }),
    {
        self.gener.select();
    }

    pub fn deselect(&mut self)
        ensures
            final(self).idx == old(self).idx,
            final(self).gener == (Generator { selected: false, ..old(self).gener }),
    {
        self.gener.deselect();
    }
}

} // verus!
