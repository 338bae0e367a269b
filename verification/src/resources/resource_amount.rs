//! A price or requirement: one amount per resource.
use vstd::prelude::*;

use crate::resources::{ResourceType, RESOURCE_COUNT};

verus! {

/// One amount per resource, indexed by resource position.
#[derive(Clone, Copy)]
pub struct ResourceAmount {
    cost: [usize; RESOURCE_COUNT],
}

impl View for ResourceAmount {
    type V = Seq<usize>;

    closed spec fn view(&self) -> Seq<usize> {
        self.cost@
    }
}

impl ResourceAmount {
    /// There is one amount per resource.
    pub proof fn lemma_len(&self)
        ensures
            self@.len() == RESOURCE_COUNT,
    {
    }

    /// All amounts zero.
    pub fn new() -> (r: Self)
        ensures
            r@ == crate::resources::resource_array::zeros(),
    {
        let r = ResourceAmount { cost: [0, 0, 0, 0, 0, 0, 0] };
        assert(r@ =~= crate::resources::resource_array::zeros());
        r
    }

    /// Sets the amount of `res_type` to `amt`.
    pub fn add_cost(self, amt: usize, res_type: ResourceType) -> (r: Self)
        requires
            res_type.id < RESOURCE_COUNT,
        ensures
            r@ == self@.update(res_type.id as int, amt),
    {
        let mut s = self;
        s.cost[res_type.id] = amt;
        assert(s@ =~= self@.update(res_type.id as int, amt));
        s
    }

    /// The amounts, in position order.
    pub fn get_arr(self) -> (r: [usize; RESOURCE_COUNT])
        ensures
            r@ == self@,
    {
        self.cost
    }

    /// The amount at position `idx`; positions past the end (other than the
    /// one just past it) read as zero.
    pub fn get_val(self, idx: usize) -> (r: usize)
        requires
            idx != RESOURCE_COUNT,
        ensures
            r == if idx < RESOURCE_COUNT { self@[idx as int] } else { 0 },
    {
        if idx > RESOURCE_COUNT {
            return 0;
        }
        return self.cost[idx];
    }

    /// Whether every amount of `self` is at least the matching amount of `other`.
    pub fn gte_all(self, other: Self) -> (r: bool)
        ensures
            r == crate::resources::resource_array::seq_gte_all(self@, other@),
    {
        let mut i: usize = 0;
        while i < RESOURCE_COUNT
            invariant
                0 <= i <= RESOURCE_COUNT,
                forall|j: int| 0 <= j < i ==> self@[j] >= other@[j],
            decreases RESOURCE_COUNT - i,
        {
            if self.cost[i] < other.cost[i] {
                return false;
            }
            i += 1;
        }
        true
    }
}

} // verus!
