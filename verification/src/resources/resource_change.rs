//! What a game action does to the resource stock.
use vstd::prelude::*;

use crate::resources::resource_array::ResValArray;

verus! {

/// A change to the resource stock: amounts gained, amounts spent, or nothing.
pub enum ResourceChange {
    Increase { val: ResValArray },
    Decrease { val: ResValArray },
    NoChange,
}

} // verus!
