//! Upgrades: one-off purchases that speed up a generator or raise its yield.
use vstd::prelude::*;

pub mod upgrade_manager;
pub mod upgrade_save;

use crate::generator::GeneratorID;
use crate::generator::generator_list::GeneratorList;
use crate::resources::{ResourceType, RESOURCE_COUNT};
use crate::resources::resource_array::{ResValArray, zeros, seq_gte_all};
use crate::upgrades::upgrade_save::UpgradeSave;

verus! {

/// An upgrade of one generator.
pub struct Upgrade {
    /// The generator it applies to.
    pub effected_generator: GeneratorID,
    /// Divides the generator's period.
    pub speed_multiplier: Option<usize>,
    /// Multiplies the generator's yield per harvest.
    pub output_multiplier: Option<usize>,
    pub generator_name: String,
    pub description: String,
    pub name: String,
    /// The price.
    pub cost: ResValArray,
    /// Amounts that must have been earned before the upgrade is offered.
    pub requirements: ResValArray,
    /// Whether the upgrade is highlighted in its list.
    pub selected: bool,
}

/// The name an upgrade shows for the generator `id` of `list`.
pub open spec fn generator_name_in(list: GeneratorList, id: GeneratorID) -> Seq<char> {
    match list.lookup(id) {
        Some(p) => list.generators@[p].gener.generator_name@,
        None => "Generator Not Found"@,
    }
}

/// The name of the generator `id` of `list`, or a placeholder.
fn lookup_generator_name(generator_list: &GeneratorList, id: GeneratorID) -> (r: String)
    ensures
        r@ == generator_name_in(*generator_list, id),
{
    generator_list.get_gener_name(id).unwrap_or(String::from_str("Generator Not Found"))
}

impl Upgrade {
    /// Every amount was earned: the upgrade can be offered.
    pub open spec fn reached(&self, totals: Seq<usize>) -> bool {
        seq_gte_all(totals, self.requirements@)
    }

    /// An upgrade with no price and no requirement yet.
    pub fn new(
        effected_generator: GeneratorID,
        speed_multiplier: Option<usize>,
        output_multiplier: Option<usize>,
        description: String,
        name: String,
        generator_list: &GeneratorList,
    ) -> (r: Self)
        ensures
            r.effected_generator == effected_generator,
            r.speed_multiplier == speed_multiplier,
            r.output_multiplier == output_multiplier,
            r.description == description,
            r.name == name,
            r.cost@ == zeros(),
            r.requirements@ == zeros(),
            r.generator_name@ == generator_name_in(*generator_list, effected_generator),
            !r.selected,
    {
        Upgrade {
            effected_generator,
            speed_multiplier,
            output_multiplier,
            description,
            name,
            cost: ResValArray::new(),
            requirements: ResValArray::new(),
            generator_name: lookup_generator_name(generator_list, effected_generator),
            selected: false,
        }
    }

    /// An upgrade that divides the generator's period by `speed_multiplier`.
    pub fn new_speed(
        effected_generator: GeneratorID,
        speed_multiplier: usize,
        description: String,
        name: String,
        cost: ResValArray,
        requirements: ResValArray,
        generator_list: &GeneratorList,
    ) -> (r: Self)
        ensures
            r.effected_generator == effected_generator,
            r.speed_multiplier == Some(speed_multiplier),
            r.output_multiplier is None,
            r.description == description,
            r.name == name,
            r.cost == cost,
            r.requirements == requirements,
            r.generator_name@ == generator_name_in(*generator_list, effected_generator),
            !r.selected,
    {
        Upgrade {
            effected_generator,
            speed_multiplier: Some(speed_multiplier),
            output_multiplier: None,
            description,
            name,
            cost,
            requirements,
            generator_name: lookup_generator_name(generator_list, effected_generator),
            selected: false,
        }
    }

    /// An upgrade that multiplies the generator's yield by `output_multiplier`.
    pub fn new_output(
        effected_generator: GeneratorID,
        output_multiplier: usize,
        description: String,
        name: String,
        cost: ResValArray,
        requirements: ResValArray,
        generator_list: &GeneratorList,
    ) -> (r: Self)
        ensures
            r.effected_generator == effected_generator,
            r.speed_multiplier is None,
            r.output_multiplier == Some(output_multiplier),
            r.description == description,
            r.name == name,
            r.cost == cost,
            r.requirements == requirements,
            r.generator_name@ == generator_name_in(*generator_list, effected_generator),
            !r.selected,
    {
        Upgrade {
            effected_generator,
            speed_multiplier: None,
            output_multiplier: Some(output_multiplier),
            description,
            name,
            cost,
            requirements,
            generator_name: lookup_generator_name(generator_list, effected_generator),
            selected: false,
        }
    }

    /// Rebuilds an upgrade from its saved parts; it starts unselected.
    pub fn from_save(
        effected_generator: GeneratorID,
        speed_modifier: Option<usize>,
        output_modifier: Option<usize>,
        generator_name: String,
        description: String,
        name: String,
        cost: ResValArray,
        requirements: ResValArray,
    ) -> (r: Self)
        ensures
            r == (Upgrade {
                effected_generator,
                speed_multiplier: speed_modifier,
                output_multiplier: output_modifier,
                generator_name,
                description,
                name,
                cost,
                requirements,
                selected: false,
            }),
    {
        Self {
            effected_generator,
            speed_multiplier: speed_modifier,
            output_multiplier: output_modifier,
            generator_name,
            description,
            name,
            cost,
            requirements,
            selected: false,
        }
    }

    /// Sets the price in resource `res` to `amt`.
    pub fn add_cost(self, amt: usize, res: ResourceType) -> (r: Self)
        requires
            res.id < RESOURCE_COUNT,
        ensures
            r.cost@ == self.cost@.update(res.id as int, amt),
            r == (Upgrade { cost: r.cost, ..self }),
    {
        let mut s = self;
        s.cost = s.cost.add_cost(amt, res);
        s
    }

    /// Sets the amount of resource `res` that must have been earned to `amt`.
    pub fn add_requirement(self, amt: usize, res: ResourceType) -> (r: Self)
        requires
            res.id < RESOURCE_COUNT,
        ensures
            r.requirements@ == self.requirements@.update(res.id as int, amt),
            r == (Upgrade { requirements: r.requirements, ..self }),
    {
        let mut s = self;
        s.requirements = s.requirements.add_cost(amt, res);
        s
    }

    /// Highlights the upgrade.
    pub fn select(&mut self)
        ensures
            *final(self) == (Upgrade { selected: true, ..*old(self) }),
    {
        if !self.selected {
            self.selected = true;
        }
    }

    /// Removes the highlight.
    pub fn deselect(&mut self)
        ensures
            *final(self) == (Upgrade { selected: false, ..*old(self) }),
    {
        if self.selected {
            self.selected = false;
        }
    }

    /// The plain form kept in a save.
    pub fn to_save(&self) -> (r: UpgradeSave)
        ensures
            r.effected_generator.res_type == self.effected_generator.res_type.id,
            r.effected_generator.idx == self.effected_generator.idx,
            r.speed_modifier == (match self.speed_multiplier { Some(v) => Some(v as u64), None => None }),
            r.output_modifier == (match self.output_multiplier { Some(v) => Some(v as u64), None => None }),
            r.generator_name == self.generator_name,
            r.description == self.description,
            r.name == self.name,
            r.cost@ == self.cost@,
            r.requirements@ == self.requirements@,
    {
        UpgradeSave::new(
            self.effected_generator.to_save(),
            self.speed_multiplier,
            self.output_multiplier,
            self.generator_name.clone(),
            self.description.clone(),
            self.name.clone(),
            self.cost,
            self.requirements,
        )
    }
}

impl Clone for Upgrade {
    /// A copy equal in every field.
    fn clone(&self) -> (r: Self)
        ensures
            r == *self,
    {
        Upgrade {
            effected_generator: self.effected_generator,
            speed_multiplier: self.speed_multiplier,
            output_multiplier: self.output_multiplier,
            generator_name: self.generator_name.clone(),
            description: self.description.clone(),
            name: self.name.clone(),
            cost: self.cost,
            requirements: self.requirements,
            selected: self.selected,
        }
    }
}

} // verus!
