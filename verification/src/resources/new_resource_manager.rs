//! The player's resource stock: what is on hand, what has ever been earned,
//! and one display line per resource.
use vstd::prelude::*;

use crate::resources::{resource_name, ResourceType, RESOURCE_COUNT};
use crate::resources::resource_array::{
    ResValArray, zeros, seq_sat_add, seq_sat_sub, seq_gte_all,
};
use crate::resources::resource_change::ResourceChange;
use crate::text::{decimal, push_decimal};

verus! {

/// The display line for resource `id` holding `count` units.
pub open spec fn resource_line(id: int, count: usize) -> Seq<char> {
    "Current "@ + resource_name(id) + ": "@ + decimal(count as nat)
}

/// Builds the display line for resource `id` holding `count` units.
pub fn make_resource_line(id: usize, count: usize) -> (r: String)
    requires
        id < RESOURCE_COUNT,
    ensures
        r@ == resource_line(id as int, count),
{
    let res = ResourceType::from_id(id);
    let mut line = String::from_str("Current ");
    line.append(res.name());
    line.append(": ");
    push_decimal(&mut line, count);
    line
}

/// The stock of every resource.
pub struct ResManager {
    resource_counts: ResValArray,
    resource_total_earned: ResValArray,
    /// One display line per resource, refreshed by `tick`.
    pub resource_lines: Vec<String>,
    has_changed: [bool; RESOURCE_COUNT],
}

impl ResManager {
    /// Units of each resource on hand.
    pub closed spec fn counts(&self) -> Seq<usize> {
        self.resource_counts@
    }

    /// Units of each resource ever earned.
    pub closed spec fn totals(&self) -> Seq<usize> {
        self.resource_total_earned@
    }

    /// Whether resource `i` has ever been the subject of a non-zero change.
    pub closed spec fn changed(&self, i: int) -> bool {
        self.has_changed@[i]
    }

    /// The display lines, as character sequences.
    pub closed spec fn lines(&self) -> Seq<Seq<char>> {
        self.resource_lines@.map_values(|s: String| s@)
    }

    /// One line per resource.
    pub closed spec fn wf(&self) -> bool {
        self.resource_lines@.len() == RESOURCE_COUNT
    }

    /// The counts, totals, change flags and lines are what `change` and
    /// `tick` read and write; the amounts always have one entry per resource.
    pub proof fn lemma_lengths(&self)
        ensures
            self.counts().len() == RESOURCE_COUNT,
            self.totals().len() == RESOURCE_COUNT,
            self.wf() ==> self.lines().len() == RESOURCE_COUNT,
    {
    }

    /// Whether the stock has one line per resource.
    pub fn is_wf(&self) -> (r: bool)
        ensures
            r == self.wf(),
    {
        self.resource_lines.len() == RESOURCE_COUNT
    }

    /// An empty stock: nothing on hand, nothing earned, blank lines.
    pub fn new() -> (r: Self)
        ensures
            r.wf(),
            r.counts() == zeros(),
            r.totals() == zeros(),
            forall|i: int| 0 <= i < RESOURCE_COUNT ==> !r.changed(i),
            forall|i: int| 0 <= i < RESOURCE_COUNT ==> #[trigger] r.lines()[i] == Seq::<char>::empty(),
    {
        let resource_counts = ResValArray::new();
        let resource_total_earned = ResValArray::new();
        let mut resource_lines: Vec<String> = Vec::new();
        let mut i: usize = 0;
        while i < RESOURCE_COUNT
            invariant
                0 <= i <= RESOURCE_COUNT,
                resource_lines@.len() == i,
                forall|j: int| 0 <= j < i ==> (#[trigger] resource_lines@[j])@ == Seq::<char>::empty(),
            decreases RESOURCE_COUNT - i,
        {
            resource_lines.push(String::new());
            i += 1;
        }
        let r = ResManager {
            resource_counts,
            resource_total_earned,
            resource_lines,
            has_changed: [false, false, false, false, false, false, false],
        };
        r
    }

    /// Units of `res_type` on hand.
    pub fn get_count(&self, res_type: ResourceType) -> (r: usize)
        requires
            res_type.id < RESOURCE_COUNT,
        ensures
            r == self.counts()[res_type.id as int],
    {
        self.resource_counts.index(res_type.id)
    }

    /// Units of `res_type` ever earned.
    pub fn get_total_count(&self, res_type: ResourceType) -> (r: usize)
        requires
            res_type.id < RESOURCE_COUNT,
        ensures
            r == self.totals()[res_type.id as int],
    {
        self.resource_total_earned.index(res_type.id)
    }

    /// Units of every resource ever earned.
    pub fn get_all_total_counts(&self) -> (r: ResValArray)
        ensures
            r@ == self.totals(),
    {
        self.resource_total_earned
    }

    /// Applies a change: an increase adds to both the stock on hand and the
    /// amounts ever earned (capping at `usize::MAX`); a decrease takes from the
    /// stock on hand only (flooring at zero). Every resource named with a
    /// non-zero amount is marked as changed.
    pub fn change(&mut self, change: ResourceChange)
        ensures
            final(self).lines() == old(self).lines(),
            final(self).wf() == old(self).wf(),
            forall|i: int| 0 <= i < RESOURCE_COUNT ==> #[trigger] final(self).totals()[i] >= old(self).totals()[i],
            seq_gte_all(old(self).totals(), old(self).counts()) ==> seq_gte_all(final(self).totals(), final(self).counts()),
            match change {
                ResourceChange::Increase { val } => {
                    &&& final(self).counts() == seq_sat_add(old(self).counts(), val@)
                    &&& final(self).totals() == seq_sat_add(old(self).totals(), val@)
                    &&& forall|i: int| 0 <= i < RESOURCE_COUNT ==>
                        #[trigger] final(self).changed(i) == (old(self).changed(i) || val@[i] != 0)
                },
                ResourceChange::Decrease { val } => {
                    &&& final(self).counts() == seq_sat_sub(old(self).counts(), val@)
                    &&& final(self).totals() == old(self).totals()
                    &&& forall|i: int| 0 <= i < RESOURCE_COUNT ==>
                        #[trigger] final(self).changed(i) == (old(self).changed(i) || val@[i] != 0)
                },
                ResourceChange::NoChange => {
                    &&& final(self).counts() == old(self).counts()
                    &&& final(self).totals() == old(self).totals()
                    &&& forall|i: int| 0 <= i < RESOURCE_COUNT ==>
                        #[trigger] final(self).changed(i) == old(self).changed(i)
                },
            },
    {
        match change {
            ResourceChange::Increase { val } => {
                self.resource_counts.add_assign(val);
                self.resource_total_earned.add_assign(val);
                self.mark_changed(val);
                proof {
                    if seq_gte_all(old(self).totals(), old(self).counts()) {
                        crate::resources::resource_array::law_gain_keeps_earned_above_stock(
                            old(self).totals(), old(self).counts(), val@);
                    }
                }
            },
            ResourceChange::Decrease { val } => {
                self.resource_counts.sub_assign(val);
                self.mark_changed(val);
                proof {
                    if seq_gte_all(old(self).totals(), old(self).counts()) {
                        crate::resources::resource_array::law_spend_keeps_earned_above_stock(
                            old(self).totals(), old(self).counts(), val@);
                    }
                }
            },
            ResourceChange::NoChange => {},
        }
    }

    /// Marks every resource with a non-zero amount in `val` as changed.
    fn mark_changed(&mut self, val: ResValArray)
        ensures
            final(self).resource_counts == old(self).resource_counts,
            final(self).resource_total_earned == old(self).resource_total_earned,
            final(self).resource_lines == old(self).resource_lines,
            forall|i: int| 0 <= i < RESOURCE_COUNT ==>
                #[trigger] final(self).has_changed@[i] == (old(self).has_changed@[i] || val@[i] != 0),
    {
        let mut i: usize = 0;
        while i < RESOURCE_COUNT
            invariant
                0 <= i <= RESOURCE_COUNT,
                self.resource_counts == old(self).resource_counts,
                self.resource_total_earned == old(self).resource_total_earned,
                self.resource_lines == old(self).resource_lines,
                forall|j: int| 0 <= j < i ==>
                    #[trigger] self.has_changed@[j] == (old(self).has_changed@[j] || val@[j] != 0),
                forall|j: int| i <= j < RESOURCE_COUNT ==>
                    #[trigger] self.has_changed@[j] == old(self).has_changed@[j],
            decreases RESOURCE_COUNT - i,
        {
            if val.0[i] != 0 {
                self.has_changed[i] = true;
            }
            i += 1;
        }
    }

    /// Rewrites the display line of every resource that has ever changed to
    /// show its current count; the other lines are left as they are.
    pub fn tick(&mut self)
        requires
            old(self).wf(),
        ensures
            final(self).wf(),
            final(self).counts() == old(self).counts(),
            final(self).totals() == old(self).totals(),
            forall|i: int| 0 <= i < RESOURCE_COUNT ==> #[trigger] final(self).changed(i) == old(self).changed(i),
            forall|i: int| 0 <= i < RESOURCE_COUNT ==>
                #[trigger] final(self).lines()[i] == if old(self).changed(i) {
                    resource_line(i, old(self).counts()[i])
                } else {
                    old(self).lines()[i]
                },
    {
        let mut idx: usize = 0;
        while idx < RESOURCE_COUNT
            invariant
                0 <= idx <= RESOURCE_COUNT,
                self.resource_counts == old(self).resource_counts,
                self.resource_total_earned == old(self).resource_total_earned,
                self.has_changed == old(self).has_changed,
                self.resource_lines@.len() == RESOURCE_COUNT,
                forall|j: int| 0 <= j < idx ==> #[trigger] self.resource_lines@[j]@ == if old(self).has_changed@[j] {
                    resource_line(j, old(self).resource_counts@[j])
                } else {
                    old(self).resource_lines@[j]@
                },
                forall|j: int| idx <= j < RESOURCE_COUNT ==> #[trigger] self.resource_lines@[j] == old(self).resource_lines@[j],
            decreases RESOURCE_COUNT - idx,
        {
            if self.has_changed[idx] {
                let line = make_resource_line(idx, self.resource_counts.index(idx));
                self.resource_lines.set(idx, line);
            }
            idx += 1;
        }
    }

    /// Rebuilds a stock from its parts: amounts on hand, amounts ever earned,
    /// display lines and change flags.
    pub fn from_parts(
        counts: ResValArray,
        totals: ResValArray,
        lines: Vec<String>,
        changed: [bool; RESOURCE_COUNT],
    ) -> (r: Self)
        ensures
            r.counts() == counts@,
            r.totals() == totals@,
            r.lines() == lines@.map_values(|s: String| s@),
            forall|i: int| 0 <= i < RESOURCE_COUNT ==> #[trigger] r.changed(i) == changed@[i],
            r.wf() == (lines@.len() == RESOURCE_COUNT),
    {
        ResManager {
            resource_counts: counts,
            resource_total_earned: totals,
            resource_lines: lines,
            has_changed: changed,
        }
    }

    /// Units of every resource on hand.
    pub fn get_all_counts(&self) -> (r: ResValArray)
        ensures
            r@ == self.counts(),
    {
        self.resource_counts
    }

    /// Which resources have ever changed.
    pub fn changed_flags(&self) -> (r: [bool; RESOURCE_COUNT])
        ensures
            forall|i: int| 0 <= i < RESOURCE_COUNT ==> #[trigger] r@[i] == self.changed(i),
    {
        self.has_changed
    }

    /// A copy of the display lines.
    pub fn lines_copy(&self) -> (r: Vec<String>)
        ensures
            r@.map_values(|s: String| s@) == self.lines(),
    {
        let mut out: Vec<String> = Vec::new();
        let mut i: usize = 0;
        while i < self.resource_lines.len()
            invariant
                0 <= i <= self.resource_lines@.len(),
                out@.len() == i,
                forall|j: int| 0 <= j < i ==> (#[trigger] out@[j])@ == self.resource_lines@[j]@,
            decreases self.resource_lines@.len() - i,
        {
            out.push(self.resource_lines[i].clone());
            i += 1;
        }
        assert(out@.map_values(|s: String| s@) =~= self.lines());
        out
    }

    /// Whether the stock on hand covers `cost` in every resource.
    pub fn can_afford(&self, cost: ResValArray) -> (r: bool)
        ensures
            r == seq_gte_all(self.counts(), cost@),
    {
        self.resource_counts.gte_all(cost)
    }
}

} // verus!
