//! A fixed-size array holding one amount per resource.
use vstd::prelude::*;

use crate::resources::{ResourceType, RESOURCE_COUNT};

verus! {

/// One amount per resource, indexed by resource position.
#[derive(Clone, Copy, Debug)]
pub struct ResValArray(pub [usize; RESOURCE_COUNT]);

/// The sequence of seven zeros.
pub open spec fn zeros() -> Seq<usize> {
    Seq::new(RESOURCE_COUNT as nat, |i: int| 0usize)
}

/// `a + b`, capped at `usize::MAX`.
pub open spec fn sat_add(a: usize, b: usize) -> usize {
    if a + b > usize::MAX { usize::MAX } else { (a + b) as usize }
}

/// `a - b`, floored at zero.
pub open spec fn sat_sub(a: usize, b: usize) -> usize {
    if a < b { 0 } else { (a - b) as usize }
}

/// Element-wise capped sum of two amount sequences of the same length.
pub open spec fn seq_sat_add(a: Seq<usize>, b: Seq<usize>) -> Seq<usize> {
    Seq::new(a.len(), |i: int| sat_add(a[i], b[i]))
}

/// Element-wise floored difference of two amount sequences of the same length.
pub open spec fn seq_sat_sub(a: Seq<usize>, b: Seq<usize>) -> Seq<usize> {
    Seq::new(a.len(), |i: int| sat_sub(a[i], b[i]))
}

/// Every entry of `a` is at least the matching entry of `b`.
pub open spec fn seq_gte_all(a: Seq<usize>, b: Seq<usize>) -> bool {
    forall|i: int| 0 <= i < RESOURCE_COUNT ==> #[trigger] a[i] >= b[i]
}

/// Spending what the stock covers takes away exactly the price: nothing is
/// floored at zero, and stock left plus price is the stock before.
pub proof fn law_afford_then_spend(counts: Seq<usize>, cost: Seq<usize>)
    requires
        counts.len() == RESOURCE_COUNT,
        cost.len() == RESOURCE_COUNT,
        seq_gte_all(counts, cost),
    ensures
        forall|i: int| 0 <= i < RESOURCE_COUNT ==> #[trigger] seq_sat_sub(counts, cost)[i] + cost[i] == counts[i],
{
}

/// Adding the same gains to the amounts earned and to the stock keeps the
/// amounts earned at or above the stock.
pub proof fn law_gain_keeps_earned_above_stock(earned: Seq<usize>, stock: Seq<usize>, gain: Seq<usize>)
    requires
        earned.len() == RESOURCE_COUNT,
        stock.len() == RESOURCE_COUNT,
        gain.len() == RESOURCE_COUNT,
        seq_gte_all(earned, stock),
    ensures
        seq_gte_all(seq_sat_add(earned, gain), seq_sat_add(stock, gain)),
{
}

/// Spending from the stock keeps the amounts earned at or above it.
pub proof fn law_spend_keeps_earned_above_stock(earned: Seq<usize>, stock: Seq<usize>, cost: Seq<usize>)
    requires
        earned.len() == RESOURCE_COUNT,
        stock.len() == RESOURCE_COUNT,
        cost.len() == RESOURCE_COUNT,
        seq_gte_all(earned, stock),
    ensures
        seq_gte_all(earned, seq_sat_sub(stock, cost)),
{
}

impl View for ResValArray {
    type V = Seq<usize>;

    open spec fn view(&self) -> Seq<usize> {
        self.0@
    }
}

impl ResValArray {
    /// All amounts zero.
    pub fn new() -> (r: Self)
        ensures
            r@ == zeros(),
    {
        let r = Self([0, 0, 0, 0, 0, 0, 0]);
        assert(r@ =~= zeros());
        r
    }

    /// Whether every amount of `self` is at least the matching amount of `other`.
    pub fn gte_all(self, other: Self) -> (r: bool)
        ensures
            r == seq_gte_all(self@, other@),
    {
        let mut i: usize = 0;
        while i < RESOURCE_COUNT
            invariant
                0 <= i <= RESOURCE_COUNT,
                forall|j: int| 0 <= j < i ==> self@[j] >= other@[j],
            decreases RESOURCE_COUNT - i,
        {
            if self.0[i] < other.0[i] {
                return false;
            }
            i += 1;
        }
        true
    }

    /// Sets the amount of `res_type` to `amt`.
    pub fn add_cost(self, amt: usize, res_type: ResourceType) -> (r: Self)
        requires
            res_type.id < RESOURCE_COUNT,
        ensures
            r@ == self@.update(res_type.id as int, amt),
    {
        let mut s = self;
        s.0[res_type.id] = amt;
        assert(s@ =~= self@.update(res_type.id as int, amt));
        s
    }

    /// The amount at position `idx`; positions past the end (other than the
    /// one just past it) read as zero.
    pub fn get_val(self, idx: usize) -> (r: usize)
        requires
            idx != RESOURCE_COUNT,
        ensures
            r == if idx < RESOURCE_COUNT { self@[idx as int] } else { 0 },
    {
        if idx > RESOURCE_COUNT {
            return 0;
        }
        return self.0[idx];
    }

    /// The amount at position `index`.
    pub fn index(&self, index: usize) -> (r: usize)
        requires
            index < RESOURCE_COUNT,
        ensures
            r == self@[index as int],
    {
        self.0[index]
    }

    /// Replaces the amount at position `index`.
    pub fn set(&mut self, index: usize, val: usize)
        requires
            index < RESOURCE_COUNT,
        ensures
            final(self)@ == old(self)@.update(index as int, val),
    {
        self.0[index] = val;
        assert(self@ =~= old(self)@.update(index as int, val));
    }

    /// Adds `rhs` in place, element by element, capping at `usize::MAX`.
    pub fn add_assign(&mut self, rhs: Self)
        ensures
            final(self)@ == seq_sat_add(old(self)@, rhs@),
    {
        let mut i: usize = 0;
        while i < RESOURCE_COUNT
            invariant
                0 <= i <= RESOURCE_COUNT,
                self@.len() == RESOURCE_COUNT,
                forall|j: int| 0 <= j < i ==> self@[j] == sat_add(old(self)@[j], rhs@[j]),
                forall|j: int| i <= j < RESOURCE_COUNT ==> self@[j] == old(self)@[j],
            decreases RESOURCE_COUNT - i,
        {
            self.0[i] = self.0[i].saturating_add(rhs.0[i]);
            i += 1;
        }
        assert(self@ =~= seq_sat_add(old(self)@, rhs@));
    }

    /// Subtracts `rhs` in place, element by element, flooring at zero.
    pub fn sub_assign(&mut self, rhs: Self)
        ensures
            final(self)@ == seq_sat_sub(old(self)@, rhs@),
    {
        let mut i: usize = 0;
        while i < RESOURCE_COUNT
            invariant
                0 <= i <= RESOURCE_COUNT,
                self@.len() == RESOURCE_COUNT,
                forall|j: int| 0 <= j < i ==> self@[j] == sat_sub(old(self)@[j], rhs@[j]),
                forall|j: int| i <= j < RESOURCE_COUNT ==> self@[j] == old(self)@[j],
            decreases RESOURCE_COUNT - i,
        {
            self.0[i] = self.0[i].saturating_sub(rhs.0[i]);
            i += 1;
        }
        assert(self@ =~= seq_sat_sub(old(self)@, rhs@));
    }

    /// The amounts, in position order.
    pub fn into_array(self) -> (r: [usize; RESOURCE_COUNT])
        ensures
            r@ == self@,
    {
        self.0
    }
}

impl core::ops::Add for ResValArray {
    type Output = Self;

    /// Element-wise sum, capped at `usize::MAX`.
    fn add(self, rhs: Self) -> (r: Self) {
        let mut result = self;
        result.add_assign(rhs);
        proof {
            let c = choose|c: ResValArray| c@ == seq_sat_add(self@, rhs@);
            assert(c@ == result@);
            assert(c.0@ =~= result.0@);
            vstd::array::axiom_array_ext_equal(c.0, result.0);
        }
        result
    }
}

impl vstd::std_specs::ops::AddSpecImpl for ResValArray {
    open spec fn obeys_add_spec() -> bool {
        true
    }

    open spec fn add_req(self, rhs: Self) -> bool {
        true
    }

    open spec fn add_spec(self, rhs: Self) -> Self {
        choose|r: ResValArray| r@ == seq_sat_add(self@, rhs@)
    }
}

impl core::ops::Sub for ResValArray {
    type Output = Self;

    /// Element-wise difference, floored at zero.
    fn sub(self, rhs: Self) -> (r: Self) {
        let mut result = self;
        result.sub_assign(rhs);
        proof {
            let c = choose|c: ResValArray| c@ == seq_sat_sub(self@, rhs@);
            assert(c@ == result@);
            assert(c.0@ =~= result.0@);
            vstd::array::axiom_array_ext_equal(c.0, result.0);
        }
        result
    }
}

impl vstd::std_specs::ops::SubSpecImpl for ResValArray {
    open spec fn obeys_sub_spec() -> bool {
        true
    }

    open spec fn sub_req(self, rhs: Self) -> bool {
        true
    }

    open spec fn sub_spec(self, rhs: Self) -> Self {
        choose|r: ResValArray| r@ == seq_sat_sub(self@, rhs@)
    }
}

} // verus!
