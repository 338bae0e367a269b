//! Plain forms of upgrades, as kept in a save.
use vstd::prelude::*;

use crate::generator::generator_save::GeneratorIDSave;
use crate::resources::RESOURCE_COUNT;
use crate::resources::resource_array::ResValArray;
use crate::upgrades::Upgrade;

verus! {

/// A multiplier as kept in a save.
pub open spec fn widen(v: Option<usize>) -> Option<u64> {
    match v {
        Some(x) => Some(x as u64),
        None => None,
    }
}

/// A saved multiplier as used in the game.
pub open spec fn narrow(v: Option<u64>) -> Option<usize> {
    match v {
        Some(x) => Some(x as usize),
        None => None,
    }
}

fn widen_exec(v: Option<usize>) -> (r: Option<u64>)
    ensures
        r == widen(v),
{
    match v {
        Some(x) => Some(x as u64),
        None => None,
    }
}

fn narrow_exec(v: Option<u64>) -> (r: Option<usize>)
    ensures
        r == narrow(v),
{
    match v {
        Some(x) => Some(x as usize),
        None => None,
    }
}

/// An upgrade as kept in a save.
pub struct UpgradeSave {
    pub effected_generator: GeneratorIDSave,
    pub speed_modifier: Option<u64>,
    pub output_modifier: Option<u64>,
    pub generator_name: String,
    pub description: String,
    pub name: String,
    pub cost: [usize; RESOURCE_COUNT],
    pub requirements: [usize; RESOURCE_COUNT],
}

impl UpgradeSave {
    /// The saved form can be turned back into an upgrade.
    pub open spec fn loadable(&self) -> bool {
        self.effected_generator.res_type < RESOURCE_COUNT
    }

    pub fn new(
        effected_generator: GeneratorIDSave,
        speed_modifier: Option<usize>,
        output_modifier: Option<usize>,
        generator_name: String,
        description: String,
        name: String,
        cost: ResValArray,
        requirements: ResValArray,
    ) -> (r: Self)
        ensures
            r.effected_generator == effected_generator,
            r.speed_modifier == widen(speed_modifier),
            r.output_modifier == widen(output_modifier),
            r.generator_name == generator_name,
            r.description == description,
            r.name == name,
            r.cost@ == cost@,
            r.requirements@ == requirements@,
    {
        UpgradeSave {
            effected_generator,
            speed_modifier: widen_exec(speed_modifier),
            output_modifier: widen_exec(output_modifier),
            generator_name,
            description,
            name,
            cost: cost.0,
            requirements: requirements.0,
        }
    }

    /// Rebuilds the upgrade; it starts unselected.
    pub fn to_upgr(&self) -> (r: Upgrade)
        requires
            self.loadable(),
        ensures
            r.effected_generator.res_type.id == self.effected_generator.res_type,
            r.effected_generator.res_type.is_catalogued(),
            r.effected_generator.idx == self.effected_generator.idx,
            r.speed_multiplier == narrow(self.speed_modifier),
            r.output_multiplier == narrow(self.output_modifier),
            r.generator_name == self.generator_name,
            r.description == self.description,
            r.name == self.name,
            r.cost@ == self.cost@,
            r.requirements@ == self.requirements@,
            !r.selected,
    {
        Upgrade::from_save(
            self.effected_generator.to_id(),
            narrow_exec(self.speed_modifier),
            narrow_exec(self.output_modifier),
            self.generator_name.clone(),
            self.description.clone(),
            self.name.clone(),
            ResValArray(self.cost),
            ResValArray(self.requirements),
        )
    }
}

/// `s` is the saved form of `u`.
pub open spec fn upgrade_saved_from(s: UpgradeSave, u: Upgrade) -> bool {
    &&& s.effected_generator.res_type == u.effected_generator.res_type.id
    &&& s.effected_generator.idx == u.effected_generator.idx
    &&& s.speed_modifier == widen(u.speed_multiplier)
    &&& s.output_modifier == widen(u.output_multiplier)
    &&& s.generator_name == u.generator_name
    &&& s.description == u.description
    &&& s.name == u.name
    &&& s.cost@ == u.cost@
    &&& s.requirements@ == u.requirements@
}

/// Saving an upgrade and loading it back gives the same upgrade, except that
/// it is not highlighted.
pub proof fn law_upgrade_save_roundtrip(u: Upgrade, s: UpgradeSave, u2: Upgrade)
    requires
        upgrade_saved_from(s, u),
        crate::upgrades::upgrade_manager::loaded_upgrade(u2, s),
    ensures
        u2 == (Upgrade { selected: false, ..u }),
{
    assert(u2.effected_generator == u.effected_generator);
    vstd::array::axiom_array_ext_equal(u2.cost.0, u.cost.0);
    vstd::array::axiom_array_ext_equal(u2.requirements.0, u.requirements.0);
    assert(u2.cost.0@ =~= u.cost.0@);
    assert(u2.requirements.0@ =~= u.requirements.0@);
    match u.speed_multiplier {
        Some(x) => assert((x as u64) as usize == x),
        None => {},
    }
    match u.output_multiplier {
        Some(x) => assert((x as u64) as usize == x),
        None => {},
    }
}

/// Saved forms of a sequence of upgrades, in order.
pub fn save_all(list: &Vec<Upgrade>) -> (r: Vec<UpgradeSave>)
    ensures
        r@.len() == list@.len(),
        forall|i: int| 0 <= i < list@.len() ==> upgrade_saved_from(#[trigger] r@[i], list@[i]),
{
    let mut out: Vec<UpgradeSave> = Vec::new();
    let mut i: usize = 0;
    while i < list.len()
        invariant
            0 <= i <= list@.len(),
            out@.len() == i,
            forall|j: int| 0 <= j < i ==> upgrade_saved_from(#[trigger] out@[j], list@[j]),
        decreases list@.len() - i,
    {
        out.push(list[i].to_save());
        i += 1;
    }
    out
}

/// The upgrades of a game as kept in a save.
pub struct UpgradeListSave {
    pub ready_upgrades: Vec<UpgradeSave>,
    pub pending_upgrades: Vec<UpgradeSave>,
}

impl UpgradeListSave {
    pub fn new(ready: Vec<Upgrade>, pending: Vec<Upgrade>) -> (r: Self)
        ensures
            r.ready_upgrades@.len() == ready@.len(),
            forall|i: int| 0 <= i < ready@.len() ==> upgrade_saved_from(#[trigger] r.ready_upgrades@[i], ready@[i]),
            r.pending_upgrades@.len() == pending@.len(),
            forall|i: int| 0 <= i < pending@.len() ==> upgrade_saved_from(#[trigger] r.pending_upgrades@[i], pending@[i]),
    {
        UpgradeListSave { ready_upgrades: save_all(&ready), pending_upgrades: save_all(&pending) }
    }
}

} // verus!
