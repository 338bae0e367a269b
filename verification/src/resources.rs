//! The kinds of resource the game knows, and the containers that count them.
use vstd::prelude::*;

pub mod new_resource_manager;
pub mod resource_amount;
pub mod resource_array;
pub mod resource_change;

pub use crate::resources::new_resource_manager::ResManager;

verus! {

/// Number of distinct resources.
pub const RESOURCE_COUNT: usize = 7;

/// Number of entries in the resource catalogue (one per resource).
pub const TOTAL_ITEMS: usize = 7;

/// A kind of resource, named by its position in every per-resource array.
#[derive(Clone, Copy, Hash)]
pub struct ResourceType {
    pub id: usize,
}

/// The display name of the resource at position `id` of the catalogue.
pub open spec fn resource_name(id: int) -> Seq<char> {
    if id == 0 {
        "Wood"@
    } else if id == 1 {
        "Stone"@
    } else if id == 2 {
        "Iron"@
    } else if id == 3 {
        "Copper"@
    } else if id == 4 {
        "Gold"@
    } else if id == 5 {
        "Ruby"@
    } else {
        "Diamond"@
    }
}

impl ResourceType {
    /// A resource type that belongs to the catalogue.
    pub open spec fn is_catalogued(self) -> bool {
        self.id < RESOURCE_COUNT
    }

    /// The catalogue entry at position `id`.
    pub fn from_id(id: usize) -> (r: ResourceType)
        requires
            id < RESOURCE_COUNT,
        ensures
            r.id == id,
    {
        ResourceType { id }
    }

    /// The display name.
    pub fn name(&self) -> (r: &'static str)
        requires
            self.is_catalogued(),
        ensures
            r@ == resource_name(self.id as int),
    {
        match self.id {
            0 => "Wood",
            1 => "Stone",
            2 => "Iron",
            3 => "Copper",
            4 => "Gold",
            5 => "Ruby",
            _ => "Diamond",
        }
    }

    pub fn wood() -> (r: ResourceType)
        ensures r.id == 0,
    {
        Self::from_id(0)
    }

    pub fn stone() -> (r: ResourceType)
        ensures r.id == 1,
    {
        Self::from_id(1)
    }

    pub fn iron() -> (r: ResourceType)
        ensures r.id == 2,
    {
        Self::from_id(2)
    }

    pub fn copper() -> (r: ResourceType)
        ensures r.id == 3,
    {
        Self::from_id(3)
    }

    pub fn gold() -> (r: ResourceType)
        ensures r.id == 4,
    {
        Self::from_id(4)
    }

    pub fn ruby() -> (r: ResourceType)
        ensures r.id == 5,
    {
        Self::from_id(5)
    }

    pub fn diamond() -> (r: ResourceType)
        ensures r.id == 6,
    {
        Self::from_id(6)
    }
}

/// The whole catalogue, in position order.
pub fn resources() -> (r: [ResourceType; TOTAL_ITEMS])
    ensures
        forall|i: int| 0 <= i < TOTAL_ITEMS ==> (#[trigger] r@[i]).id == i,
{
    [
        ResourceType::wood(),
        ResourceType::stone(),
        ResourceType::iron(),
        ResourceType::copper(),
        ResourceType::gold(),
        ResourceType::ruby(),
        ResourceType::diamond(),
    ]
}

/// Two resource types are the same resource when they sit at the same position.
impl PartialEq for ResourceType {
    fn eq(&self, other: &Self) -> (r: bool) {
        self.id == other.id
    }
}

impl vstd::std_specs::cmp::PartialEqSpecImpl for ResourceType {
    open spec fn obeys_eq_spec() -> bool {
        true
    }

    open spec fn eq_spec(&self, other: &Self) -> bool {
        self.id == other.id
    }
}

impl Eq for ResourceType {}

} // verus!
