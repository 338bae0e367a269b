//! Plain forms of generators, as kept in a save.
use vstd::prelude::*;

use crate::generator::{Generator, GeneratorID, GeneratorRefCellWrapper};
use crate::resources::{ResourceType, RESOURCE_COUNT};
use crate::resources::resource_array::ResValArray;

verus! {

/// `s` is the saved form of generator `g`, with the given flag and order number.
pub open spec fn generator_saved_as(s: GeneratorSave, g: Generator, in_app: bool, idx: u64) -> bool {
    &&& s.resource_type == g.resource_type.id
    &&& s.ticks_per == g.ticks_per
    &&& s.purchase_costs@ == g.purchase_costs@
    &&& s.cost_coeff == g.cost_coeff
    &&& s.current_bought == g.current_bought
    &&& s.initial_bought == g.initial_bought
    &&& s.amount_per_harvest == g.amount_per_harvest
    &&& s.generator_name == g.generator_name
    &&& s.id.res_type == g.id.res_type.id
    &&& s.id.idx == g.id.idx
    &&& s.in_app == in_app
    &&& s.idx == idx
}

/// Saving an identifier and loading it back gives the same identifier.
pub proof fn law_id_save_roundtrip(id: GeneratorID, s: GeneratorIDSave, id2: GeneratorID)
    requires
        s.res_type == id.res_type.id,
        s.idx == id.idx,
        id2.res_type.id == s.res_type,
        id2.idx == s.idx,
    ensures
        id2 == id,
{
}

/// A generator as kept in a save.
pub struct GeneratorSave {
    pub resource_type: usize,
    pub ticks_per: usize,
    pub purchase_costs: [usize; RESOURCE_COUNT],
    /// Growth of the price per purchase, in hundredths.
    pub cost_coeff: u32,
    pub current_bought: usize,
    pub initial_bought: usize,
    pub amount_per_harvest: usize,
    pub generator_name: String,
    pub id: GeneratorIDSave,
    /// Whether the generator was on show (rather than waiting to be unlocked).
    pub in_app: bool,
    /// The order in which its list received the generator.
    pub idx: u64,
}

impl GeneratorSave {
    /// The saved form can be turned back into a generator.
    pub open spec fn loadable(&self) -> bool {
        self.resource_type < RESOURCE_COUNT && self.id.res_type < RESOURCE_COUNT
    }

    pub fn new(
        resource_type: usize,
        ticks_per: usize,
        purchase_costs: ResValArray,
        cost_coeff: u32,
        current_bought: usize,
        initial_bought: usize,
        amount_per_harvest: usize,
        generator_name: String,
        id: GeneratorID,
        in_app: bool,
        idx: u64,
    ) -> (r: Self)
        ensures
            r.resource_type == resource_type,
            r.ticks_per == ticks_per,
            r.purchase_costs@ == purchase_costs@,
            r.cost_coeff == cost_coeff,
            r.current_bought == current_bought,
            r.initial_bought == initial_bought,
            r.amount_per_harvest == amount_per_harvest,
            r.generator_name == generator_name,
            r.id.res_type == id.res_type.id,
            r.id.idx == id.idx,
            r.in_app == in_app,
            r.idx == idx,
    {
        GeneratorSave {
            resource_type,
            ticks_per,
            purchase_costs: purchase_costs.0,
            cost_coeff,
            current_bought,
            initial_bought,
            amount_per_harvest,
            generator_name,
            id: id.to_save(),
            in_app,
            idx,
        }
    }

    /// Rebuilds the generator; progress restarts at zero.
    pub fn to_gen(&self) -> (r: Generator)
        requires
            self.loadable(),
        ensures
            r.resource_type.id == self.resource_type,
            r.resource_type.is_catalogued(),
            r.progress == 0,
            r.ticks_per == self.ticks_per,
            r.purchase_costs@ == self.purchase_costs@,
            r.cost_coeff == self.cost_coeff,
            r.current_bought == self.current_bought,
            r.initial_bought == self.initial_bought,
            r.amount_per_harvest == self.amount_per_harvest,
            r.generator_name == self.generator_name,
            r.id.res_type.id == self.id.res_type,
            r.id.res_type.is_catalogued(),
            r.id.idx == self.id.idx,
            !r.selected,
    {
        Generator::from_save(
            self.resource_type,
            self.ticks_per,
            self.purchase_costs,
            self.cost_coeff,
            self.current_bought,
            self.initial_bought,
            self.amount_per_harvest,
            self.generator_name.clone(),
            self.id,
        )
    }
}

/// A generator identifier as kept in a save.
#[derive(Clone, Copy)]
pub struct GeneratorIDSave {
    pub res_type: usize,
    pub idx: usize,
}

impl GeneratorIDSave {
    pub fn new(res_type: usize, idx: usize) -> (r: Self)
        ensures
            r.res_type == res_type,
            r.idx == idx,
    {
        Self { res_type, idx }
    }

    /// Rebuilds the identifier, naming the resource from the catalogue.
    pub fn to_id(&self) -> (r: GeneratorID)
        requires
            self.res_type < RESOURCE_COUNT,
        ensures
            r.res_type.id == self.res_type,
            r.res_type.is_catalogued(),
            r.idx == self.idx,
    {
        GeneratorID { res_type: ResourceType::from_id(self.res_type), idx: self.idx }
    }
}

/// The generators of a list that are still waiting to be unlocked.
pub struct GeneratorListSave {
    pub generators: Vec<GeneratorSave>,
}

impl GeneratorListSave {
    /// The saved forms of `list`, in order, marked as not on show.
    pub fn new(list: Vec<GeneratorRefCellWrapper>) -> (r: Self)
        ensures
            r.generators@.len() == list@.len(),
            forall|i: int| 0 <= i < list@.len() ==>
                generator_saved_as(#[trigger] r.generators@[i], list@[i].gener, false, list@[i].idx),
    {
        let mut generators: Vec<GeneratorSave> = Vec::new();
        let mut i: usize = 0;
        while i < list.len()
            invariant
                0 <= i <= list@.len(),
                generators@.len() == i,
                forall|j: int| 0 <= j < i ==>
                    generator_saved_as(#[trigger] generators@[j], list@[j].gener, false, list@[j].idx),
            decreases list@.len() - i,
        {
            let w = &list[i];
            generators.push(w.gener.to_save(false, w.idx));
            i += 1;
        }
        GeneratorListSave { generators }
    }
}

} // verus!
