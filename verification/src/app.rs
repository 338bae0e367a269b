//! The game itself: its state, what a clock tick does, what selecting a list
//! entry does, and which list has the focus.
use vstd::prelude::*;
use tui_widget_list::ListState;

use crate::generator::{Generator, GeneratorRefCellWrapper};
use crate::generator::generator_list::{
    GeneratorList, CATALOGUE_LEN, apply_upgrade_to, is_catalogue_generator, saved_from,
};
use crate::generator::generator_save::{GeneratorListSave, GeneratorSave};
use crate::resources::{ResManager, RESOURCE_COUNT};
use crate::resources::new_resource_manager::resource_line;
use crate::resources::resource_array::{
    sat_add, seq_gte_all, seq_sat_sub, zeros,
};
use crate::resources::resource_change::ResourceChange;
use crate::event::AppEvent;
use crate::text::{decimal, to_decimal_string};
use crate::upgrades::Upgrade;
use crate::upgrades::upgrade_manager::{UpgradeManager, reached_in, unreached_in};
use crate::upgrades::upgrade_save::{UpgradeListSave, UpgradeSave, save_all, upgrade_saved_from};

verus! {

/// The version written into every save.
pub const VERSION: &'static str = "0.0.0";

/// `n` capped at `usize::MAX`.
pub open spec fn cap(n: int) -> usize {
    if n > usize::MAX { usize::MAX } else { n as usize }
}

/// What generator `g` yields of resource `i` on its next tick.
pub open spec fn harvest_at(g: Generator, i: int) -> nat {
    if g.harvests_next() && g.resource_type.id == i {
        (g.current_bought * g.amount_per_harvest) as nat
    } else {
        0
    }
}

/// What the generators at positions `active` of `gens` yield, together, of
/// resource `i` on their next tick.
pub open spec fn harvest_total(gens: Seq<GeneratorRefCellWrapper>, active: Seq<usize>, i: int) -> nat
    decreases active.len(),
{
    if active.len() == 0 {
        0
    } else {
        harvest_total(gens, active.drop_last(), i) + harvest_at(gens[active.last() as int].gener, i)
    }
}

/// `s` after the harvests of the generators at positions `active` of `gens`,
/// each amount capped at `usize::MAX`.
pub open spec fn after_harvest(s: Seq<usize>, gens: Seq<GeneratorRefCellWrapper>, active: Seq<usize>) -> Seq<usize> {
    Seq::new(RESOURCE_COUNT as nat, |i: int| cap(s[i] + harvest_total(gens, active, i)))
}

/// A tick never lowers the amount of any resource, on hand or earned.
pub proof fn law_tick_never_lowers_amounts(s: Seq<usize>, gens: Seq<GeneratorRefCellWrapper>, active: Seq<usize>)
    requires
        s.len() == RESOURCE_COUNT,
    ensures
        forall|i: int| 0 <= i < RESOURCE_COUNT ==> #[trigger] after_harvest(s, gens, active)[i] >= s[i],
{
}

/// Adding to a capped sum is capping the whole sum.
pub proof fn lemma_sat_add_cap(x: int, h: usize)
    requires
        x >= 0,
    ensures
        sat_add(cap(x), h) == cap(x + h),
{
}

/// An error met while loading a save.
pub enum FileError {
    /// The file at this path exists but does not hold a valid save.
    FileAlreadyExists(String),
}

impl FileError {
    /// The message shown for the error.
    pub fn message(&self) -> (r: String)
        ensures
            match self {
                FileError::FileAlreadyExists(path) => r@ == "Error: File at '"@ + path@ + "' already exists and is not a valid save"@,
            },
    {
        match self {
            FileError::FileAlreadyExists(path) => {
                let mut s = String::from_str("Error: File at '");
                s.append(path.as_str());
                s.append("' already exists and is not a valid save");
                s
            },
        }
    }
}

impl Clone for FileError {
    fn clone(&self) -> (r: Self)
        ensures
            r == *self,
    {
        match self {
            FileError::FileAlreadyExists(path) => FileError::FileAlreadyExists(path.clone()),
        }
    }
}

/// What the two lists show: which one has the focus, the entry each one
/// shows as selected, and the selection each one remembers from when it last
/// lost the focus.
pub struct SelectionState {
    /// The upgrade list has the focus (rather than the generator list).
    pub selected_upgrade: bool,
    /// The entry shown as selected in the upgrade list.
    pub upgrade_selected: Option<usize>,
    /// The entry shown as selected in the generator list.
    pub generator_selected: Option<usize>,
    /// The upgrade list's selection when it last lost the focus.
    pub upgrade_last_selected: Option<usize>,
    /// The generator list's selection when it last lost the focus.
    pub generator_last_selected: Option<usize>,
}

impl SelectionState {
    /// Only the list with the focus shows a selection.
    pub open spec fn unfocused_cleared(&self) -> bool {
        if self.selected_upgrade {
            self.generator_selected is None
        } else {
            self.upgrade_selected is None
        }
    }

    /// Only the focused list shows a selection, the generator list always
    /// shows one when it has the focus, and it always remembers one.
    pub open spec fn focus_kept(&self) -> bool {
        &&& self.unfocused_cleared()
        &&& !self.selected_upgrade ==> self.generator_selected is Some
        &&& self.generator_last_selected is Some
    }

    /// The state after the focus moves to the other list: the list losing
    /// the focus remembers its selection and shows none; the list gaining it
    /// shows the selection it remembered.
    pub open spec fn switched(&self) -> SelectionState {
        if self.selected_upgrade {
            SelectionState {
                selected_upgrade: false,
                upgrade_last_selected: self.upgrade_selected,
                upgrade_selected: None,
                generator_selected: self.generator_last_selected,
                generator_last_selected: self.generator_last_selected,
            }
        } else {
            SelectionState {
                selected_upgrade: true,
                generator_last_selected: self.generator_selected,
                generator_selected: None,
                upgrade_selected: self.upgrade_last_selected,
                upgrade_last_selected: self.upgrade_last_selected,
            }
        }
    }

    /// `t` is `self` after a move up or down within the focused list: the
    /// focused list keeps its selection or shows some entry; nothing else
    /// changes.
    pub open spec fn moved_to(&self, t: SelectionState) -> bool {
        &&& t.selected_upgrade == self.selected_upgrade
        &&& t.upgrade_last_selected == self.upgrade_last_selected
        &&& t.generator_last_selected == self.generator_last_selected
        &&& if self.selected_upgrade {
            &&& t.generator_selected == self.generator_selected
            &&& (t.upgrade_selected == self.upgrade_selected || t.upgrade_selected is Some)
        } else {
            &&& t.upgrade_selected == self.upgrade_selected
            &&& (t.generator_selected == self.generator_selected || t.generator_selected is Some)
        }
    }
}

/// Switching keeps only the focused list showing a selection, and switching
/// twice brings back the focus and both shown selections.
pub proof fn law_switch_twice_restores(s: SelectionState)
    requires
        s.unfocused_cleared(),
    ensures
        s.switched().unfocused_cleared(),
        s.switched().switched().selected_upgrade == s.selected_upgrade,
        s.switched().switched().upgrade_selected == s.upgrade_selected,
        s.switched().switched().generator_selected == s.generator_selected,
{
}

/// Whatever moves and switches follow a new game's start, only the focused
/// list shows a selection, and the generator list shows one whenever it has
/// the focus (so selecting in it always has an entry to act on).
pub proof fn law_focus_kept(s: SelectionState, t: SelectionState)
    requires
        s.focus_kept(),
        t == s.switched() || s.moved_to(t),
    ensures
        t.focus_kept(),
{
}

/// A list widget's cursor, from the list widget crate.
#[verifier::external_type_specification]
#[verifier::external_body]
pub struct ExListState(ListState);

/// The entry that a list widget's cursor selects (its `selected` field).
pub uninterp spec fn list_selection(s: ListState) -> Option<usize>;

/// `ListState::default`: a cursor that selects nothing.
#[verifier::external_body]
fn new_list_state() -> (r: ListState)
    ensures
        list_selection(r) is None,
{
    ListState::default()
}

/// Reads the `selected` field of a cursor.
#[verifier::external_body]
fn selection_in(s: &ListState) -> (r: Option<usize>)
    ensures
        r == list_selection(*s),
{
    s.selected
}

/// `ListState::select`: the cursor then selects `index`.
#[verifier::external_body]
fn select_in(s: &mut ListState, index: Option<usize>)
    ensures
        list_selection(*final(s)) == index,
{
    s.select(index)
}

/// The entry that a list widget's cursor selects after `ListState::next`
/// on cursor `s`. It is a function of the cursor alone: the next entry, the
/// first when nothing was selected or the last was (with wrapping), the same
/// one while scrolling within a tall entry, no change on an empty list.
pub uninterp spec fn list_next_selection(s: ListState) -> Option<usize>;

/// The entry that a list widget's cursor selects after `ListState::previous`
/// on cursor `s`: the previous entry, the last when nothing was selected or
/// the first was (with wrapping), the same one while scrolling back within a
/// tall entry, no change on an empty list.
pub uninterp spec fn list_previous_selection(s: ListState) -> Option<usize>;

/// `ListState::next`: the cursor selects `list_next_selection` of the cursor
/// before the call; that is the old selection or some entry.
#[verifier::external_body]
fn next_in(s: &mut ListState)
    ensures
        list_selection(*final(s)) == list_next_selection(*old(s)),
        list_selection(*final(s)) == list_selection(*old(s)) || list_selection(*final(s)) is Some,
{
    s.next()
}

/// `ListState::previous`: the cursor selects `list_previous_selection` of
/// the cursor before the call; that is the old selection or some entry.
#[verifier::external_body]
fn previous_in(s: &mut ListState)
    ensures
        list_selection(*final(s)) == list_previous_selection(*old(s)),
        list_selection(*final(s)) == list_selection(*old(s)) || list_selection(*final(s)) is Some,
{
    s.previous()
}

/// The two lists' cursors and which one has the focus.
pub struct AppState {
    pub upgrade_state: ListState,
    pub generator_state: ListState,
    /// The upgrade list has the focus (rather than the generator list).
    pub selected_upgrade: bool,
    /// The upgrade list's selection when it last lost the focus.
    pub upgrade_last_selected: Option<usize>,
    /// The generator list's selection when it last lost the focus.
    pub generator_last_selected: Option<usize>,
}

impl View for AppState {
    type V = SelectionState;

    open spec fn view(&self) -> SelectionState {
        SelectionState {
            selected_upgrade: self.selected_upgrade,
            upgrade_selected: list_selection(self.upgrade_state),
            generator_selected: list_selection(self.generator_state),
            upgrade_last_selected: self.upgrade_last_selected,
            generator_last_selected: self.generator_last_selected,
        }
    }
}

impl AppState {
    /// The generator list has the focus, its first entry selected; each list
    /// remembers its first entry.
    pub fn new() -> (r: Self)
        ensures
            r@ == (SelectionState {
                selected_upgrade: false,
                upgrade_selected: None,
                generator_selected: Some(0usize),
                upgrade_last_selected: Some(0usize),
                generator_last_selected: Some(0usize),
            }),
            r@.focus_kept(),
    {
        let mut upgrade_state = new_list_state();
        let mut generator_state = new_list_state();
        select_in(&mut upgrade_state, None);
        select_in(&mut generator_state, Some(0));
        AppState {
            upgrade_state,
            generator_state,
            selected_upgrade: false,
            upgrade_last_selected: Some(0),
            generator_last_selected: Some(0),
        }
    }

    /// Moves up in the focused list.
    pub fn previous(&mut self)
        ensures
            old(self).selected_upgrade ==> final(self)@.upgrade_selected == list_previous_selection(old(self).upgrade_state),
            !old(self).selected_upgrade ==> final(self)@.generator_selected == list_previous_selection(old(self).generator_state),
            old(self)@.moved_to(final(self)@),
            old(self)@.focus_kept() ==> final(self)@.focus_kept(),
    {
        if self.selected_upgrade {
            previous_in(&mut self.upgrade_state);
        } else {
            previous_in(&mut self.generator_state);
        }
        proof {
            if old(self)@.focus_kept() {
                law_focus_kept(old(self)@, self@);
            }
        }
    }

    /// Moves down in the focused list.
    pub fn next(&mut self)
        ensures
            old(self).selected_upgrade ==> final(self)@.upgrade_selected == list_next_selection(old(self).upgrade_state),
            !old(self).selected_upgrade ==> final(self)@.generator_selected == list_next_selection(old(self).generator_state),
            old(self)@.moved_to(final(self)@),
            old(self)@.focus_kept() ==> final(self)@.focus_kept(),
    {
        if self.selected_upgrade {
            next_in(&mut self.upgrade_state);
        } else {
            next_in(&mut self.generator_state);
        }
        proof {
            if old(self)@.focus_kept() {
                law_focus_kept(old(self)@, self@);
            }
        }
    }

    /// Moves the focus to the other list.
    pub fn switch(&mut self)
        ensures
            final(self)@ == old(self)@.switched(),
            old(self)@.focus_kept() ==> final(self)@.focus_kept(),
    {
        if self.selected_upgrade {
            self.selected_upgrade = false;
            self.upgrade_last_selected = selection_in(&self.upgrade_state);
            select_in(&mut self.upgrade_state, None);
            let g = self.generator_last_selected;
            select_in(&mut self.generator_state, g);
        } else {
            self.selected_upgrade = true;
            self.generator_last_selected = selection_in(&self.generator_state);
            select_in(&mut self.generator_state, None);
            let u = self.upgrade_last_selected;
            select_in(&mut self.upgrade_state, u);
        }
        proof {
            if old(self)@.focus_kept() {
                law_focus_kept(old(self)@, self@);
            }
        }
    }
}

/// The state of a game.
pub struct AppWidget {
    /// The game goes on until the player quits.
    pub running: bool,
    pub resource_manager: ResManager,
    /// Positions, in `generator_list`, of the generators on show, in the order shown.
    pub generators: Vec<usize>,
    pub generator_list: GeneratorList,
    /// Upgrades offered for sale, in the order shown.
    pub purchasable_upgrades: Vec<Upgrade>,
    pub upgrade_manager: UpgradeManager,
    /// The status line.
    pub bottom_text: String,
}

impl AppWidget {
    /// The generators on show are distinct generators of the list, none of
    /// them still waiting, and no generator waits twice.
    pub open spec fn wf(&self) -> bool {
        let act = self.generators@;
        let waiting = self.generator_list.not_yet_used@;
        &&& self.resource_manager.wf()
        &&& self.generator_list.wf()
        &&& self.generator_list.waiting_in_order()
        &&& forall|i: int| 0 <= i < act.len() ==> #[trigger] act[i] < self.generator_list.generators@.len()
        &&& forall|i: int, j: int| 0 <= i < j < act.len() ==> act[i] != act[j]
        &&& forall|i: int, j: int| 0 <= i < act.len() && 0 <= j < waiting.len() ==> act[i] != waiting[j]
        &&& forall|i: int, j: int| 0 <= i < j < waiting.len() ==> waiting[i] != waiting[j]
    }

    /// The generator on show at position `i` of the shown list.
    pub open spec fn shown(&self, i: int) -> Generator {
        self.generator_list.generators@[self.generators@[i] as int].gener
    }

    /// The inputs on which `tick` runs without a panic.
    pub open spec fn tick_safe(&self) -> bool {
        forall|i: int| 0 <= i < self.generators@.len() ==> #[trigger] self.shown(i).tick_safe()
    }

    /// A new game: the first two generators of the catalogue on show, the
    /// other seven waiting, an empty stock, the two starting upgrades pending.
    pub fn new() -> (r: Self)
        ensures
            r.wf(),
            r.running,
            r.generators@ == seq![0usize, 1],
            r.generator_list.generators@.len() == CATALOGUE_LEN,
            forall|k: int| 0 <= k < CATALOGUE_LEN ==> is_catalogue_generator(#[trigger] r.generator_list.generators@[k].gener, k),
            forall|k: int| 0 <= k < CATALOGUE_LEN ==> (#[trigger] r.generator_list.generators@[k]).idx == k,
            r.generator_list.not_yet_used@ == seq![8usize, 7, 6, 5, 4, 3, 2],
            r.generator_list.count == CATALOGUE_LEN,
            r.resource_manager.counts() == zeros(),
            r.resource_manager.totals() == zeros(),
            forall|i: int| 0 <= i < RESOURCE_COUNT ==> !r.resource_manager.changed(i),
            forall|i: int| 0 <= i < RESOURCE_COUNT ==> #[trigger] r.resource_manager.lines()[i] == Seq::<char>::empty(),
            r.purchasable_upgrades@.len() == 0,
            crate::upgrades::upgrade_manager::is_starting_upgrades(r.upgrade_manager, r.generator_list),
            r.bottom_text@ == "By Pignated"@,
    {
        let resource_manager = ResManager::new();
        let mut generator_list = GeneratorList::default();
        let mut generators: Vec<usize> = Vec::new();
        let first = generator_list.get_next();
        let second = generator_list.get_next();
        generators.push(first.unwrap());
        generators.push(second.unwrap());
        let purchasable_upgrades: Vec<Upgrade> = Vec::new();
        let upgrade_manager = UpgradeManager::new(&generator_list);
        let r = Self {
            running: true,
            resource_manager,
            generators,
            generator_list,
            purchasable_upgrades,
            upgrade_manager,
            bottom_text: String::from_str("By Pignated"),
        };
        assert(r.generator_list.not_yet_used@ =~= seq![8usize, 7, 6, 5, 4, 3, 2]);
        assert(r.generators@ =~= seq![0usize, 1]);
        r
    }

    /// Stops the game.
    pub fn quit(&mut self)
        ensures
            *final(self) == (AppWidget { running: false, ..*old(self) }),
    {
        self.running = false;
    }

    /// One clock tick: the resource lines are refreshed, every generator on
    /// show advances and its harvest joins the stock, upgrades whose
    /// requirements are now met become ready, and every ready upgrade moves
    /// to the shop.
    pub fn tick(&mut self)
        requires
            old(self).wf(),
            old(self).tick_safe(),
        ensures
            final(self).wf(),
            final(self).running == old(self).running,
            final(self).bottom_text == old(self).bottom_text,
            final(self).generators == old(self).generators,
            final(self).generator_list.not_yet_used == old(self).generator_list.not_yet_used,
            final(self).generator_list.count == old(self).generator_list.count,
            final(self).generator_list.generators@.len() == old(self).generator_list.generators@.len(),
            forall|q: int| 0 <= q < old(self).generator_list.generators@.len() ==>
                #[trigger] final(self).generator_list.generators@[q] == if old(self).generators@.contains(q as usize) {
                    GeneratorRefCellWrapper {
                        gener: old(self).generator_list.generators@[q].gener.after_tick(),
                        idx: old(self).generator_list.generators@[q].idx,
                    }
                } else {
                    old(self).generator_list.generators@[q]
                },
            final(self).resource_manager.counts() == after_harvest(
                old(self).resource_manager.counts(), old(self).generator_list.generators@, old(self).generators@),
            final(self).resource_manager.totals() == after_harvest(
                old(self).resource_manager.totals(), old(self).generator_list.generators@, old(self).generators@),
            forall|i: int| 0 <= i < RESOURCE_COUNT ==> #[trigger] final(self).resource_manager.changed(i) == (
                old(self).resource_manager.changed(i)
                || harvest_total(old(self).generator_list.generators@, old(self).generators@, i) > 0),
            forall|i: int| 0 <= i < RESOURCE_COUNT ==>
                #[trigger] final(self).resource_manager.lines()[i] == if old(self).resource_manager.changed(i) {
                    resource_line(i, old(self).resource_manager.counts()[i])
                } else {
                    old(self).resource_manager.lines()[i]
                },
            final(self).upgrade_manager.ready_upgrades@.len() == 0,
            final(self).upgrade_manager.pending_upgrades@ == unreached_in(
                old(self).upgrade_manager.pending_upgrades@, final(self).resource_manager.totals()),
            final(self).purchasable_upgrades@ == old(self).purchasable_upgrades@
                + old(self).upgrade_manager.ready_upgrades@
                + reached_in(old(self).upgrade_manager.pending_upgrades@, final(self).resource_manager.totals()),
    {
        let ghost g0 = self.generator_list.generators@;
        let ghost act = self.generators@;
        let ghost c0 = self.resource_manager.counts();
        let ghost t0 = self.resource_manager.totals();
        self.resource_manager.tick();
        let ghost rm1 = self.resource_manager;
        let mut k: usize = 0;
        let n_gens = self.generator_list.len();
        proof {
            rm1.lemma_lengths();
            old(self).resource_manager.lemma_lengths();
            assert forall|i: int| 0 <= i < act.len() implies #[trigger] g0[act[i] as int].gener.tick_safe() by {
                assert(old(self).shown(i).tick_safe());
            }
            assert(act.take(0).len() == 0);
            assert(self.resource_manager.counts() =~= after_harvest(c0, g0, act.take(0)));
            assert(self.resource_manager.totals() =~= after_harvest(t0, g0, act.take(0)));
        }
        while k < self.generators.len()
            invariant
                0 <= k <= act.len(),
                self.generators@ == act,
                self.generators == old(self).generators,
                g0.len() == n_gens,
                self.generator_list.wf(),
                self.resource_manager.wf(),
                forall|i: int| 0 <= i < act.len() ==> #[trigger] act[i] < g0.len(),
                forall|i: int, j: int| 0 <= i < j < act.len() ==> act[i] != act[j],
                forall|i: int| 0 <= i < act.len() ==> #[trigger] g0[act[i] as int].gener.tick_safe(),
                self.generator_list.generators@.len() == g0.len(),
                self.generator_list.not_yet_used == old(self).generator_list.not_yet_used,
                self.generator_list.count == old(self).generator_list.count,
                forall|q: int| 0 <= q < g0.len() ==>
                    #[trigger] self.generator_list.generators@[q] == if act.take(k as int).contains(q as usize) {
                        GeneratorRefCellWrapper { gener: g0[q].gener.after_tick(), idx: g0[q].idx }
                    } else {
                        g0[q]
                    },
                self.resource_manager.counts() == after_harvest(c0, g0, act.take(k as int)),
                self.resource_manager.totals() == after_harvest(t0, g0, act.take(k as int)),
                forall|i: int| 0 <= i < RESOURCE_COUNT ==> #[trigger] self.resource_manager.changed(i) == (
                    rm1.changed(i) || harvest_total(g0, act.take(k as int), i) > 0),
                self.resource_manager.lines() == rm1.lines(),
                self.bottom_text == old(self).bottom_text,
                self.running == old(self).running,
                self.purchasable_upgrades == old(self).purchasable_upgrades,
                self.upgrade_manager == old(self).upgrade_manager,
            decreases act.len() - k,
        {
            let p = self.generators[k];
            proof {
                let ta = act.take(k as int);
                assert(!ta.contains(p)) by {
                    if ta.contains(p) {
                        let j = choose|j: int| 0 <= j < ta.len() && #[trigger] ta[j] == p;
                        assert(act[j] == act[k as int]);
                    }
                }
                assert(act.take(k + 1).drop_last() =~= act.take(k as int));
                assert(act.take(k + 1).last() == p);
            }
            let ghost rm_before = self.resource_manager;
            let change = self.generator_list.tick_at(p);
            self.resource_manager.change(change);
            proof {
                let g = g0[p as int].gener;
                assert(g0[act[k as int] as int].gener.tick_safe());
                assert forall|i: int| 0 <= i < RESOURCE_COUNT implies
                    #[trigger] self.resource_manager.counts()[i] == after_harvest(c0, g0, act.take(k + 1))[i]
                    && self.resource_manager.totals()[i] == after_harvest(t0, g0, act.take(k + 1))[i]
                    && self.resource_manager.changed(i) == (rm1.changed(i) || harvest_total(g0, act.take(k + 1), i) > 0) by {
                    let h = harvest_at(g, i);
                    assert(harvest_total(g0, act.take(k + 1), i) == harvest_total(g0, act.take(k as int), i) + h);
                    if g.harvests_next() {
                        assert(zeros()[i] == 0);
                        assert(g.harvest()[i] == h);
                    } else {
                        assert(h == 0);
                    }
                    lemma_sat_add_cap(c0[i] + harvest_total(g0, act.take(k as int), i), h as usize);
                    lemma_sat_add_cap(t0[i] + harvest_total(g0, act.take(k as int), i), h as usize);
                }
                assert(self.resource_manager.counts() =~= after_harvest(c0, g0, act.take(k + 1)));
                assert(self.resource_manager.totals() =~= after_harvest(t0, g0, act.take(k + 1)));
                assert forall|q: int| 0 <= q < g0.len() implies
                    #[trigger] self.generator_list.generators@[q] == if act.take(k + 1).contains(q as usize) {
                        GeneratorRefCellWrapper { gener: g0[q].gener.after_tick(), idx: g0[q].idx }
                    } else {
                        g0[q]
                    } by {
                    let ta = act.take(k as int);
                    let tb = act.take(k + 1);
                    if q == p as int {
                        assert(tb[k as int] == p);
                    } else {
                        if tb.contains(q as usize) {
                            let j = choose|j: int| 0 <= j < tb.len() && #[trigger] tb[j] == q as usize;
                            assert((q as usize) as int == q);
                            assert(j != k);
                            assert(ta[j] == q as usize);
                        }
                        if ta.contains(q as usize) {
                            let j = choose|j: int| 0 <= j < ta.len() && #[trigger] ta[j] == q as usize;
                            assert(tb[j] == q as usize);
                        }
                    }
                }
            }
            k += 1;
        }
        proof {
            assert(act.take(act.len() as int) =~= act);
        }
        let totals = self.resource_manager.get_all_total_counts();
        self.upgrade_manager.poll_requirement_reached(totals);
        self.purchasable_upgrades.append(&mut self.upgrade_manager.ready_upgrades);
        proof {
            assert(self.purchasable_upgrades@ =~= old(self).purchasable_upgrades@
                + old(self).upgrade_manager.ready_upgrades@
                + reached_in(old(self).upgrade_manager.pending_upgrades@, self.resource_manager.totals()));
            assert forall|q: int| 0 <= q < g0.len() implies
                #[trigger] self.generator_list.generators@[q] == if old(self).generators@.contains(q as usize) {
                    GeneratorRefCellWrapper { gener: g0[q].gener.after_tick(), idx: g0[q].idx }
                } else {
                    g0[q]
                } by {
            }
        }
    }

    /// The inputs on which `handle_select` runs without a panic: with the
    /// generator list focused, a selected generator that exists, whose count
    /// never went below its start, and that can count one more unit if it is
    /// bought; with the upgrade list focused, an upgrade that can be applied
    /// if it is bought.
    pub open spec fn select_safe(
        &self,
        selected_upgrade: bool,
        generator_selected: Option<usize>,
        upgrade_selected: Option<usize>,
    ) -> bool {
        if !selected_upgrade {
            generator_selected matches Some(g) && g < self.generators@.len() && {
                let gg = self.shown(g as int);
                &&& gg.current_bought >= gg.initial_bought
                &&& seq_gte_all(self.resource_manager.counts(), gg.cost()) ==> gg.current_bought < usize::MAX
            }
        } else {
            match upgrade_selected {
                Some(u) => u < self.purchasable_upgrades@.len()
                    && seq_gte_all(self.resource_manager.counts(), self.purchasable_upgrades@[u as int].cost@)
                    ==> self.generator_list.upgrade_safe(self.purchasable_upgrades@[u as int]),
                None => true,
            }
        }
    }

    /// Carries out a player command on the game and the two list cursors:
    /// quitting stops the game; selecting acts on the highlighted entry of
    /// the focused list (and moves the upgrade highlight down when an upgrade
    /// other than the first was bought); up and down move within the focused
    /// list; left and right switch lists.
    pub fn handle_event(&mut self, state: &mut AppState, event: AppEvent)
        requires
            old(self).wf(),
            event == AppEvent::Select ==> old(self).select_safe(
                old(state).selected_upgrade,
                old(state)@.generator_selected,
                old(state)@.upgrade_selected,
            ),
        ensures
            final(self).wf(),
            old(state)@.focus_kept() ==> final(state)@.focus_kept(),
            match event {
                AppEvent::Quit => {
                    &&& *final(self) == (AppWidget { running: false, ..*old(self) })
                    &&& *final(state) == *old(state)
                },
                AppEvent::Select => {
                    let adv = old(self).select_advances(old(state).selected_upgrade, old(state)@.upgrade_selected);
                    &&& Self::select_outcome(
                        *old(self),
                        *final(self),
                        old(state).selected_upgrade,
                        old(state)@.generator_selected,
                        old(state)@.upgrade_selected,
                        adv,
                    )
                    &&& adv ==> {
                        &&& old(state)@.moved_to(final(state)@)
                        &&& final(state)@.upgrade_selected == list_next_selection(old(state).upgrade_state)
                    }
                    &&& !adv ==> *final(state) == *old(state)
                },
                AppEvent::GoUp => {
                    &&& *final(self) == *old(self)
                    &&& old(state)@.moved_to(final(state)@)
                    &&& old(state).selected_upgrade ==> final(state)@.upgrade_selected
                        == list_previous_selection(old(state).upgrade_state)
                    &&& !old(state).selected_upgrade ==> final(state)@.generator_selected
                        == list_previous_selection(old(state).generator_state)
                },
                AppEvent::GoDown => {
                    &&& *final(self) == *old(self)
                    &&& old(state)@.moved_to(final(state)@)
                    &&& old(state).selected_upgrade ==> final(state)@.upgrade_selected
                        == list_next_selection(old(state).upgrade_state)
                    &&& !old(state).selected_upgrade ==> final(state)@.generator_selected
                        == list_next_selection(old(state).generator_state)
                },
                AppEvent::GoLeft | AppEvent::GoRight => {
                    &&& *final(self) == *old(self)
                    &&& final(state)@ == old(state)@.switched()
                },
            },
    {
        match event {
            AppEvent::Quit => self.quit(),
            AppEvent::Select => {
                let selected_upgrade = state.selected_upgrade;
                let generator_selected = selection_in(&state.generator_state);
                let upgrade_selected = selection_in(&state.upgrade_state);
                let advance = self.handle_select(selected_upgrade, generator_selected, upgrade_selected);
                if advance {
                    state.next();
                }
            },
            AppEvent::GoUp => state.previous(),
            AppEvent::GoDown => state.next(),
            AppEvent::GoLeft | AppEvent::GoRight => state.switch(),
        }
    }

    /// Whether the game state is well formed.
    pub fn is_wf(&self) -> (r: bool)
        ensures
            r == self.wf(),
    {
        if !self.resource_manager.is_wf() || !self.generator_list.is_wf() {
            return false;
        }
        if !self.generator_list.is_waiting_in_order() {
            return false;
        }
        let act = &self.generators;
        let waiting = &self.generator_list.not_yet_used;
        let n = self.generator_list.len();
        let mut i: usize = 0;
        while i < act.len()
            invariant
                act == &self.generators,
                waiting == &self.generator_list.not_yet_used,
                n == self.generator_list.generators@.len(),
                0 <= i <= act@.len(),
                forall|x: int| 0 <= x < i ==> #[trigger] act@[x] < n,
                forall|x: int, y: int| 0 <= x < y < act@.len() && x < i ==> act@[x] != act@[y],
                forall|x: int, y: int| 0 <= x < i && 0 <= y < waiting@.len() ==> act@[x] != waiting@[y],
            decreases act@.len() - i,
        {
            let p = act[i];
            if p >= n {
                return false;
            }
            let mut j: usize = i + 1;
            while j < act.len()
                invariant
                    act == &self.generators,
                    i < act@.len(),
                    i + 1 <= j <= act@.len(),
                    p == act@[i as int],
                    forall|y: int| i < y < j ==> p != act@[y],
                decreases act@.len() - j,
            {
                if act[j] == p {
                    return false;
                }
                j += 1;
            }
            let mut k: usize = 0;
            while k < waiting.len()
                invariant
                    waiting == &self.generator_list.not_yet_used,
                    act == &self.generators,
                    i < act@.len(),
                    0 <= k <= waiting@.len(),
                    p == act@[i as int],
                    forall|y: int| 0 <= y < k ==> p != waiting@[y],
                decreases waiting@.len() - k,
            {
                if waiting[k] == p {
                    assert(act@[i as int] == waiting@[k as int]);
                    return false;
                }
                k += 1;
            }
            i += 1;
        }
        let mut a: usize = 0;
        while a < waiting.len()
            invariant
                waiting == &self.generator_list.not_yet_used,
                0 <= a <= waiting@.len(),
                forall|x: int, y: int| 0 <= x < y < waiting@.len() && x < a ==> waiting@[x] != waiting@[y],
            decreases waiting@.len() - a,
        {
            let q = waiting[a];
            let mut b: usize = a + 1;
            while b < waiting.len()
                invariant
                    waiting == &self.generator_list.not_yet_used,
                    a < waiting@.len(),
                    a + 1 <= b <= waiting@.len(),
                    q == waiting@[a as int],
                    forall|y: int| a < y < b ==> q != waiting@[y],
                decreases waiting@.len() - b,
            {
                if waiting[b] == q {
                    return false;
                }
                b += 1;
            }
            a += 1;
        }
        true
    }

    /// Whether `tick` may be called.
    pub fn tick_is_safe(&self) -> (r: bool)
        requires
            self.wf(),
        ensures
            r == self.tick_safe(),
    {
        let mut i: usize = 0;
        while i < self.generators.len()
            invariant
                self.wf(),
                0 <= i <= self.generators@.len(),
                forall|j: int| 0 <= j < i ==> #[trigger] self.shown(j).tick_safe(),
            decreases self.generators@.len() - i,
        {
            let p = self.generators[i];
            if !self.generator_list.get(p).gener.is_tick_safe() {
                assert(!self.shown(i as int).tick_safe());
                return false;
            }
            i += 1;
        }
        true
    }

    /// Whether `handle_select` may be called with these selections.
    pub fn select_is_safe(
        &self,
        selected_upgrade: bool,
        generator_selected: Option<usize>,
        upgrade_selected: Option<usize>,
    ) -> (r: bool)
        requires
            self.wf(),
        ensures
            r == self.select_safe(selected_upgrade, generator_selected, upgrade_selected),
    {
        if !selected_upgrade {
            match generator_selected {
                Some(g) => {
                    if g >= self.generators.len() {
                        return false;
                    }
                    let gg = &self.generator_list.get(self.generators[g]).gener;
                    if gg.current_bought < gg.initial_bought {
                        return false;
                    }
                    let cost = gg.get_cost();
                    !self.resource_manager.can_afford(cost) || gg.current_bought < usize::MAX
                },
                None => false,
            }
        } else {
            match upgrade_selected {
                Some(u) => {
                    if u < self.purchasable_upgrades.len()
                        && self.resource_manager.can_afford(self.purchasable_upgrades[u].cost) {
                        self.generator_list.is_upgrade_safe(&self.purchasable_upgrades[u])
                    } else {
                        true
                    }
                },
                None => true,
            }
        }
    }

    /// `after` and `advance` are the game and the highlight move that
    /// selecting gives from game `before`, with the focus and highlighted
    /// entries given: see `handle_select`.
    pub open spec fn select_outcome(
        before: AppWidget,
        after: AppWidget,
        selected_upgrade: bool,
        generator_selected: Option<usize>,
        upgrade_selected: Option<usize>,
        advance: bool,
    ) -> bool {
        &&& after.running == before.running
        &&& after.generator_list.count == before.generator_list.count
        &&& (!selected_upgrade ==> {
            let g = generator_selected->0 as int;
            let p = before.generators@[g];
            let gg = before.shown(g);
            let cost = gg.cost();
            &&& !advance
            &&& after.purchasable_upgrades == before.purchasable_upgrades
            &&& after.upgrade_manager == before.upgrade_manager
            &&& seq_gte_all(before.resource_manager.counts(), cost) ==> {
                &&& after.resource_manager.counts() == seq_sat_sub(before.resource_manager.counts(), cost)
                &&& after.resource_manager.totals() == before.resource_manager.totals()
                &&& after.resource_manager.lines() == before.resource_manager.lines()
                &&& forall|i: int| 0 <= i < RESOURCE_COUNT ==> #[trigger] after.resource_manager.changed(i)
                    == (before.resource_manager.changed(i) || cost[i] != 0)
                &&& after.generator_list.generators@ == before.generator_list.generators@.update(
                    p as int,
                    GeneratorRefCellWrapper {
                        gener: Generator { current_bought: (gg.current_bought + 1) as usize, ..gg },
                        idx: before.generator_list.generators@[p as int].idx,
                    },
                )
                &&& if gg.current_bought == 0 {
                    &&& after.bottom_text@ == decimal(gg.progress as nat)
                    &&& before.generator_list.not_yet_used@.len() > 0 ==> {
                        &&& after.generators@ == before.generators@.push(before.generator_list.not_yet_used@.last())
                        &&& after.generator_list.not_yet_used@ == before.generator_list.not_yet_used@.drop_last()
                    }
                    &&& before.generator_list.not_yet_used@.len() == 0 ==> {
                        &&& after.generators == before.generators
                        &&& after.generator_list.not_yet_used@ == before.generator_list.not_yet_used@
                    }
                } else {
                    &&& after.bottom_text == before.bottom_text
                    &&& after.generators == before.generators
                    &&& after.generator_list.not_yet_used == before.generator_list.not_yet_used
                }
            }
            &&& !seq_gte_all(before.resource_manager.counts(), cost) ==> after == before
        })
        &&& (selected_upgrade ==> match upgrade_selected {
            None => after == before && !advance,
            Some(u) => {
                let bought = u < before.purchasable_upgrades@.len()
                    && seq_gte_all(before.resource_manager.counts(), before.purchasable_upgrades@[u as int].cost@);
                let upg = before.purchasable_upgrades@[u as int];
                &&& after.bottom_text == before.bottom_text
                &&& after.generators == before.generators
                &&& after.generator_list.not_yet_used == before.generator_list.not_yet_used
                &&& after.resource_manager.totals() == before.resource_manager.totals()
                &&& after.upgrade_manager.ready_upgrades@ == before.upgrade_manager.ready_upgrades@
                    + reached_in(before.upgrade_manager.pending_upgrades@, before.resource_manager.totals())
                &&& after.upgrade_manager.pending_upgrades@
                    == unreached_in(before.upgrade_manager.pending_upgrades@, before.resource_manager.totals())
                &&& bought ==> {
                    &&& after.resource_manager.counts() == seq_sat_sub(before.resource_manager.counts(), upg.cost@)
                    &&& after.resource_manager.lines() == before.resource_manager.lines()
                    &&& forall|i: int| 0 <= i < RESOURCE_COUNT ==> #[trigger] after.resource_manager.changed(i)
                        == (before.resource_manager.changed(i) || upg.cost@[i] != 0)
                    &&& after.generator_list.generators@ == apply_upgrade_to(before.generator_list.generators@, upg)
                    &&& after.purchasable_upgrades@ == before.purchasable_upgrades@.remove(u as int)
                    &&& advance == (u > 0)
                }
                &&& !bought ==> {
                    &&& after.resource_manager == before.resource_manager
                    &&& after.generator_list == before.generator_list
                    &&& after.purchasable_upgrades == before.purchasable_upgrades
                    &&& !advance
                }
            },
        })
    }

    /// Whether selecting moves the upgrade list's highlight down: an upgrade
    /// other than the first is highlighted and bought.
    pub open spec fn select_advances(&self, selected_upgrade: bool, upgrade_selected: Option<usize>) -> bool {
        &&& selected_upgrade
        &&& upgrade_selected matches Some(u)
        &&& 0 < u < self.purchasable_upgrades@.len()
        &&& seq_gte_all(self.resource_manager.counts(), self.purchasable_upgrades@[u as int].cost@)
    }

    /// The player selects the highlighted entry of the focused list.
    ///
    /// In the generator list: if the stock covers the generator's price, the
    /// price is paid and one more unit is bought; buying the first unit also
    /// shows the generator's progress in the status line and unlocks the
    /// next waiting generator, if any.
    ///
    /// In the upgrade list: if an upgrade is highlighted and the stock covers
    /// its price, the price is paid, the upgrade is applied and leaves the
    /// shop; then pending upgrades whose requirements are met become ready.
    ///
    /// Returns whether the upgrade list's highlight should move down, which
    /// happens when an upgrade other than the first was bought.
    pub fn handle_select(
        &mut self,
        selected_upgrade: bool,
        generator_selected: Option<usize>,
        upgrade_selected: Option<usize>,
    ) -> (advance: bool)
        requires
            old(self).wf(),
            old(self).select_safe(selected_upgrade, generator_selected, upgrade_selected),
        ensures
            final(self).wf(),
            Self::select_outcome(*old(self), *final(self), selected_upgrade, generator_selected, upgrade_selected, advance),
            advance == old(self).select_advances(selected_upgrade, upgrade_selected),
    {
        if !selected_upgrade {
            let gen_idx = generator_selected.unwrap();
            let p = self.generators[gen_idx];
            let gener_cost = self.generator_list.get(p).gener.get_cost();
            if self.resource_manager.can_afford(gener_cost) {
                let first_bought = self.generator_list.get(p).gener.get_count() == 0;
                if first_bought {
                    self.bottom_text = to_decimal_string(self.generator_list.get(p).gener.progress);
                    match self.generator_list.get_next() {
                        Some(gener) => {
                            self.generators.push(gener);
                        },
                        None => {},
                    }
                }
                let ghost before_buy = self.generator_list.generators@;
                let res_change = self.generator_list.buy_at(p);
                self.resource_manager.change(res_change);
                proof {
                    assert forall|q: int| 0 <= q < before_buy.len() implies
                        #[trigger] self.generator_list.generators@[q].idx == before_buy[q].idx by {
                    }
                    let act = old(self).generators@;
                    let waiting = old(self).generator_list.not_yet_used@;
                    let act2 = self.generators@;
                    let waiting2 = self.generator_list.not_yet_used@;
                    assert forall|i: int, j: int| 0 <= i < j < act2.len() implies act2[i] != act2[j] by {
                        if j == act.len() {
                            assert(act2[j] == waiting[waiting.len() - 1]);
                        }
                    }
                    assert forall|i: int, j: int| 0 <= i < act2.len() && 0 <= j < waiting2.len() implies act2[i] != waiting2[j] by {
                        if i == act.len() {
                            assert(waiting2[j] == waiting[j]);
                        } else {
                            assert(waiting2[j] == waiting[j]);
                        }
                    }
                    assert forall|i: int, j: int| 0 <= i < j < waiting2.len() implies waiting2[i] != waiting2[j] by {
                        assert(waiting2[i] == waiting[i]);
                        assert(waiting2[j] == waiting[j]);
                    }
                    assert forall|i: int| 0 <= i < act2.len() implies #[trigger] act2[i] < self.generator_list.generators@.len() by {
                        if i == act.len() {
                            assert(act2[i] == waiting[waiting.len() - 1]);
                        }
                    }
                }
            }
            false
        } else {
            let mut advance = false;
            if let Some(upgrade_idx) = upgrade_selected {
                if upgrade_idx < self.purchasable_upgrades.len() {
                    let cost = self.purchasable_upgrades[upgrade_idx].cost;
                    if self.resource_manager.can_afford(cost) {
                        self.resource_manager.change(ResourceChange::Decrease { val: cost });
                        let upgrade = self.purchasable_upgrades[upgrade_idx].clone();
                        let ghost before_up = self.generator_list.generators@;
                        self.generator_list.apply_upgrade(upgrade);
                        proof {
                            crate::generator::generator_list::find_last_in_range(before_up, upgrade.effected_generator);
                            assert forall|q: int| 0 <= q < before_up.len() implies
                                #[trigger] self.generator_list.generators@[q].idx == before_up[q].idx by {
                            }
                        }
                        self.purchasable_upgrades.remove(upgrade_idx);
                        if upgrade_idx > 0 {
                            advance = true;
                        }
                    }
                }
                let totals = self.resource_manager.get_all_total_counts();
                self.upgrade_manager.poll_requirement_reached(totals);
            }
            advance
        }
    }

    /// A game restored from a save: the saved waiting generators (in order of
    /// their order numbers), then the saved generators on show, each shown
    /// with its position among them as its order number.
    pub fn from_save(app_save: AppSave) -> (r: Self)
        requires
            app_save.loadable(),
        ensures
            is_restored_game(r, app_save),
    {
        let AppSave {
            generator_list,
            active_generators,
            resource_manager,
            purchasable_upgrades,
            upgrade_manager,
            resource_count: _,
            version: _,
        } = app_save;
        let ghost n = generator_list.generators@.len();
        let list = GeneratorList::from_save(generator_list);
        let mut a = Self {
            running: true,
            resource_manager,
            generators: Vec::new(),
            generator_list: list,
            purchasable_upgrades: crate::upgrades::upgrade_manager::load_all(&purchasable_upgrades),
            upgrade_manager: UpgradeManager::from_save(upgrade_manager),
            bottom_text: String::from_str("By Pignated"),
        };
        let ghost g_list = a.generator_list.generators@;
        let ghost p0 = a.purchasable_upgrades;
        let ghost u0 = a.upgrade_manager;
        let mut i: usize = 0;
        while i < active_generators.len()
            invariant
                0 <= i <= active_generators@.len(),
                n == g_list.len(),
                n + active_generators@.len() < usize::MAX,
                forall|j: int| 0 <= j < active_generators@.len() ==> (#[trigger] active_generators@[j]).loadable(),
                a.generator_list.wf(),
                a.generator_list.generators@.len() == n + i,
                a.generator_list.generators@.subrange(0, n as int) == g_list,
                a.generator_list.not_yet_used@ == Seq::new(n, |j: int| (n - 1 - j) as usize),
                a.generator_list.count == list.count,
                a.generators@ == Seq::new(i as nat, |j: int| (n + j) as usize),
                forall|j: int| 0 <= j < i ==> {
                    let w = #[trigger] a.generator_list.generators@[n + j];
                    &&& crate::generator::generator_list::loaded_from(w.gener, active_generators@[j])
                    &&& w.idx == j
                },
                a.running,
                a.resource_manager == resource_manager,
                a.bottom_text@ == "By Pignated"@,
                a.purchasable_upgrades == p0,
                a.upgrade_manager == u0,
            decreases active_generators@.len() - i,
        {
            let w = GeneratorRefCellWrapper::new(active_generators[i].to_gen(), i as u64);
            let ghost before = a.generator_list.generators@;
            let pos = a.generator_list.add_in_app_gen(w);
            a.generators.push(pos);
            proof {
                assert(a.generator_list.generators@.subrange(0, n as int) =~= before.subrange(0, n as int));
                assert(a.generators@ =~= Seq::new((i + 1) as nat, |j: int| (n + j) as usize));
            }
            i += 1;
        }
        proof {
            let gl = a.generator_list.generators@;
            let sub = gl.subrange(0, n as int);
            assert(sub == g_list);
            assert(crate::generator::generator_list::loaded_gens(sub, a.generator_list.not_yet_used@, old_saves(app_save)));
            let act = a.generators@;
            let waiting = a.generator_list.not_yet_used@;
            assert forall|x: int, y: int| 0 <= x < act.len() && 0 <= y < waiting.len() implies act[x] != waiting[y] by {
            }
            assert forall|x: int, y: int| 0 <= x < y < waiting.len() implies waiting[x] != waiting[y] by {
            }
            assert forall|x: int, y: int| 0 <= x < y < waiting.len() implies
                gl[waiting[x] as int].idx > gl[waiting[y] as int].idx by {
                assert(gl[waiting[x] as int] == sub[waiting[x] as int]);
                assert(gl[waiting[y] as int] == sub[waiting[y] as int]);
            }
            assert forall|x: int| 0 <= x < waiting.len() implies gl[waiting[x] as int].idx < a.generator_list.count by {
                assert(gl[waiting[x] as int] == sub[waiting[x] as int]);
            }
        }
        a
    }
}

/// The waiting generators of a saved game.
pub open spec fn old_saves(app_save: AppSave) -> Seq<GeneratorSave> {
    app_save.generator_list.generators@
}

/// `r` is the game that loading `s` gives: a running game whose stock is
/// the saved one; the saved waiting generators (in order of their order
/// numbers) at the front of the generator list, then the saved generators on
/// show, each with its position among them as order number; the saved shop
/// and upgrade lists.
pub open spec fn is_restored_game(r: AppWidget, s: AppSave) -> bool {
    let n = s.generator_list.generators@.len();
    let m = s.active_generators@.len();
    &&& r.wf()
    &&& r.running
    &&& r.bottom_text@ == "By Pignated"@
    &&& r.resource_manager == s.resource_manager
    &&& r.generators@ == Seq::new(m, |i: int| (n + i) as usize)
    &&& r.generator_list.generators@.len() == n + m
    &&& r.generator_list.count == 2 * n
    &&& crate::generator::generator_list::loaded_gens(
        r.generator_list.generators@.subrange(0, n as int),
        r.generator_list.not_yet_used@,
        s.generator_list.generators@,
    )
    &&& forall|i: int| 0 <= i < m ==> {
        let w = #[trigger] r.generator_list.generators@[n + i];
        &&& crate::generator::generator_list::loaded_from(w.gener, s.active_generators@[i])
        &&& w.idx == i
    }
    &&& r.purchasable_upgrades@.len() == s.purchasable_upgrades@.len()
    &&& forall|i: int| 0 <= i < s.purchasable_upgrades@.len() ==>
        crate::upgrades::upgrade_manager::loaded_upgrade(#[trigger] r.purchasable_upgrades@[i], s.purchasable_upgrades@[i])
    &&& r.upgrade_manager.ready_upgrades@.len() == s.upgrade_manager.ready_upgrades@.len()
    &&& forall|i: int| 0 <= i < s.upgrade_manager.ready_upgrades@.len() ==>
        crate::upgrades::upgrade_manager::loaded_upgrade(#[trigger] r.upgrade_manager.ready_upgrades@[i], s.upgrade_manager.ready_upgrades@[i])
    &&& r.upgrade_manager.pending_upgrades@.len() == s.upgrade_manager.pending_upgrades@.len()
    &&& forall|i: int| 0 <= i < s.upgrade_manager.pending_upgrades@.len() ==>
        crate::upgrades::upgrade_manager::loaded_upgrade(#[trigger] r.upgrade_manager.pending_upgrades@[i], s.upgrade_manager.pending_upgrades@[i])
}

/// `s` is the saved form of a game with generator list `list`, generators on
/// show at positions `active`, stock `rm`, shop `purch` and upgrades `um`.
pub open spec fn is_saved_game(
    s: AppSave,
    list: GeneratorList,
    active: Seq<usize>,
    rm: ResManager,
    purch: Seq<Upgrade>,
    um: UpgradeManager,
) -> bool {
    &&& crate::generator::generator_list::saved_gens(s.generator_list.generators@, list.generators@, list.not_yet_used@)
    &&& s.active_generators@.len() == active.len()
    &&& forall|i: int| 0 <= i < active.len() ==> crate::generator::generator_save::generator_saved_as(
        #[trigger] s.active_generators@[i],
        list.generators@[active[i] as int].gener,
        true,
        list.generators@[active[i] as int].idx,
    )
    &&& s.resource_manager == rm
    &&& s.purchasable_upgrades@.len() == purch.len()
    &&& forall|i: int| 0 <= i < purch.len() ==> upgrade_saved_from(#[trigger] s.purchasable_upgrades@[i], purch[i])
    &&& s.upgrade_manager.ready_upgrades@.len() == um.ready_upgrades@.len()
    &&& forall|i: int| 0 <= i < um.ready_upgrades@.len() ==> upgrade_saved_from(#[trigger] s.upgrade_manager.ready_upgrades@[i], um.ready_upgrades@[i])
    &&& s.upgrade_manager.pending_upgrades@.len() == um.pending_upgrades@.len()
    &&& forall|i: int| 0 <= i < um.pending_upgrades@.len() ==> upgrade_saved_from(#[trigger] s.upgrade_manager.pending_upgrades@[i], um.pending_upgrades@[i])
    &&& s.resource_count == RESOURCE_COUNT
    &&& s.version@ == VERSION@
}

/// Saving a game and loading the save gives back the same game, except that
/// generators restart their progress and nothing is highlighted: the same
/// stock, the same generators on show in the same order, the same waiting
/// line of generators, and the same shop, ready and pending upgrades.
pub proof fn law_game_save_restores(w: AppWidget, save: AppSave, r: AppWidget)
    requires
        w.wf(),
        is_saved_game(
            save,
            w.generator_list,
            w.generators@,
            w.resource_manager,
            w.purchasable_upgrades@,
            w.upgrade_manager,
        ),
        is_restored_game(r, save),
    ensures
        r.resource_manager == w.resource_manager,
        r.generators@.len() == w.generators@.len(),
        forall|i: int| 0 <= i < w.generators@.len() ==>
            #[trigger] r.shown(i) == (Generator { progress: 0, selected: false, ..w.shown(i) }),
        r.generator_list.not_yet_used@.len() == w.generator_list.not_yet_used@.len(),
        forall|j: int| 0 <= j < w.generator_list.not_yet_used@.len() ==>
            (#[trigger] r.generator_list.generators@[r.generator_list.not_yet_used@[j] as int]).gener == (Generator {
                progress: 0,
                selected: false,
                ..w.generator_list.generators@[w.generator_list.not_yet_used@[j] as int].gener
            }),
        r.purchasable_upgrades@.len() == w.purchasable_upgrades@.len(),
        forall|i: int| 0 <= i < w.purchasable_upgrades@.len() ==>
            #[trigger] r.purchasable_upgrades@[i] == (Upgrade { selected: false, ..w.purchasable_upgrades@[i] }),
        r.upgrade_manager.ready_upgrades@.len() == w.upgrade_manager.ready_upgrades@.len(),
        forall|i: int| 0 <= i < w.upgrade_manager.ready_upgrades@.len() ==>
            #[trigger] r.upgrade_manager.ready_upgrades@[i] == (Upgrade { selected: false, ..w.upgrade_manager.ready_upgrades@[i] }),
        r.upgrade_manager.pending_upgrades@.len() == w.upgrade_manager.pending_upgrades@.len(),
        forall|i: int| 0 <= i < w.upgrade_manager.pending_upgrades@.len() ==>
            #[trigger] r.upgrade_manager.pending_upgrades@[i] == (Upgrade { selected: false, ..w.upgrade_manager.pending_upgrades@[i] }),
{
    let n = save.generator_list.generators@.len() as int;
    let gl = r.generator_list.generators@;
    let sub = gl.subrange(0, n);
    assert(save.generator_list.generators.len() == save.generator_list.generators@.len());
    crate::generator::generator_list::law_save_load_keeps_waiting_line(
        w.generator_list.generators@,
        w.generator_list.not_yet_used@,
        save.generator_list.generators@,
        sub,
        r.generator_list.not_yet_used@,
    );
    assert forall|j: int| 0 <= j < w.generator_list.not_yet_used@.len() implies
        (#[trigger] gl[r.generator_list.not_yet_used@[j] as int]).gener == (Generator {
            progress: 0,
            selected: false,
            ..w.generator_list.generators@[w.generator_list.not_yet_used@[j] as int].gener
        }) by {
        assert(gl[r.generator_list.not_yet_used@[j] as int] == sub[r.generator_list.not_yet_used@[j] as int]);
    }
    assert forall|i: int| 0 <= i < w.generators@.len() implies
        #[trigger] r.shown(i) == (Generator { progress: 0, selected: false, ..w.shown(i) }) by {
        assert(r.generators@[i] == (n + i) as usize);
        assert(r.generator_list.generators@.len() == r.generator_list.generators.len());
        assert(((n + i) as usize) as int == n + i);
        let wr = r.generator_list.generators@[n + i];
        let p = w.generators@[i] as int;
        crate::generator::law_generator_save_roundtrip(
            w.generator_list.generators@[p].gener,
            save.active_generators@[i],
            true,
            w.generator_list.generators@[p].idx,
            wr.gener,
        );
    }
    assert forall|i: int| 0 <= i < w.purchasable_upgrades@.len() implies
        #[trigger] r.purchasable_upgrades@[i] == (Upgrade { selected: false, ..w.purchasable_upgrades@[i] }) by {
        crate::upgrades::upgrade_save::law_upgrade_save_roundtrip(
            w.purchasable_upgrades@[i], save.purchasable_upgrades@[i], r.purchasable_upgrades@[i]);
    }
    assert forall|i: int| 0 <= i < w.upgrade_manager.ready_upgrades@.len() implies
        #[trigger] r.upgrade_manager.ready_upgrades@[i] == (Upgrade { selected: false, ..w.upgrade_manager.ready_upgrades@[i] }) by {
        crate::upgrades::upgrade_save::law_upgrade_save_roundtrip(
            w.upgrade_manager.ready_upgrades@[i], save.upgrade_manager.ready_upgrades@[i], r.upgrade_manager.ready_upgrades@[i]);
    }
    assert forall|i: int| 0 <= i < w.upgrade_manager.pending_upgrades@.len() implies
        #[trigger] r.upgrade_manager.pending_upgrades@[i] == (Upgrade { selected: false, ..w.upgrade_manager.pending_upgrades@[i] }) by {
        crate::upgrades::upgrade_save::law_upgrade_save_roundtrip(
            w.upgrade_manager.pending_upgrades@[i], save.upgrade_manager.pending_upgrades@[i], r.upgrade_manager.pending_upgrades@[i]);
    }
}

/// A whole game as kept in a save.
pub struct AppSave {
    pub generator_list: GeneratorListSave,
    pub active_generators: Vec<GeneratorSave>,
    pub resource_manager: ResManager,
    pub purchasable_upgrades: Vec<UpgradeSave>,
    pub upgrade_manager: UpgradeListSave,
    pub resource_count: usize,
    pub version: String,
}

impl AppSave {
    /// Every part can be loaded and the generators fit the order numbering.
    pub open spec fn loadable(&self) -> bool {
        &&& forall|i: int| 0 <= i < self.generator_list.generators@.len() ==> (#[trigger] self.generator_list.generators@[i]).loadable()
        &&& forall|i: int| 0 <= i < self.active_generators@.len() ==> (#[trigger] self.active_generators@[i]).loadable()
        &&& 2 * self.generator_list.generators@.len() <= u64::MAX
        &&& self.generator_list.generators@.len() + self.active_generators@.len() < usize::MAX
        &&& self.resource_manager.wf()
        &&& forall|i: int| 0 <= i < self.purchasable_upgrades@.len() ==> (#[trigger] self.purchasable_upgrades@[i]).loadable()
        &&& forall|i: int| 0 <= i < self.upgrade_manager.ready_upgrades@.len() ==> (#[trigger] self.upgrade_manager.ready_upgrades@[i]).loadable()
        &&& forall|i: int| 0 <= i < self.upgrade_manager.pending_upgrades@.len() ==> (#[trigger] self.upgrade_manager.pending_upgrades@[i]).loadable()
    }

    /// Whether the save can be loaded.
    pub fn is_loadable(&self) -> (r: bool)
        ensures
            r == self.loadable(),
    {
        let n = self.generator_list.generators.len();
        let m = self.active_generators.len();
        if n as u64 > 0x7FFF_FFFF_FFFF_FFFFu64 || m >= usize::MAX - n {
            return false;
        }
        if !self.resource_manager.is_wf() {
            return false;
        }
        all_generators_loadable(&self.generator_list.generators)
            && all_generators_loadable(&self.active_generators)
            && all_upgrades_loadable(&self.purchasable_upgrades)
            && all_upgrades_loadable(&self.upgrade_manager.ready_upgrades)
            && all_upgrades_loadable(&self.upgrade_manager.pending_upgrades)
    }

    /// The saved form of a game: the waiting generators, the generators on
    /// show (marked as on show), the stock as it is, the shop, the upgrade
    /// lists, the number of resources and the version.
    pub fn new(
        generator_list: GeneratorList,
        active_generators: Vec<usize>,
        resource_manager: ResManager,
        purchasable_upgrades: Vec<Upgrade>,
        upgrade_manager: UpgradeManager,
    ) -> (r: Self)
        requires
            generator_list.wf(),
            forall|i: int| 0 <= i < active_generators@.len() ==> #[trigger] active_generators@[i] < generator_list.generators@.len(),
        ensures
            is_saved_game(
                r,
                generator_list,
                active_generators@,
                resource_manager,
                purchasable_upgrades@,
                upgrade_manager,
            ),
    {
        let mut active: Vec<GeneratorSave> = Vec::new();
        let mut i: usize = 0;
        while i < active_generators.len()
            invariant
                0 <= i <= active_generators@.len(),
                forall|j: int| 0 <= j < active_generators@.len() ==> #[trigger] active_generators@[j] < generator_list.generators@.len(),
                active@.len() == i,
                forall|j: int| 0 <= j < i ==> crate::generator::generator_save::generator_saved_as(
                    #[trigger] active@[j],
                    generator_list.generators@[active_generators@[j] as int].gener,
                    true,
                    generator_list.generators@[active_generators@[j] as int].idx,
                ),
            decreases active_generators@.len() - i,
        {
            let w = generator_list.get(active_generators[i]);
            active.push(w.gener.to_save(true, w.idx));
            i += 1;
        }
        AppSave {
            generator_list: generator_list.to_save(),
            active_generators: active,
            resource_manager,
            purchasable_upgrades: save_all(&purchasable_upgrades),
            upgrade_manager: upgrade_manager.to_save(),
            resource_count: RESOURCE_COUNT,
            version: String::from_str(VERSION),
        }
    }
}

/// Whether every saved generator can be loaded.
pub fn all_generators_loadable(v: &Vec<GeneratorSave>) -> (r: bool)
    ensures
        r == forall|i: int| 0 <= i < v@.len() ==> (#[trigger] v@[i]).loadable(),
{
    let mut i: usize = 0;
    while i < v.len()
        invariant
            0 <= i <= v@.len(),
            forall|j: int| 0 <= j < i ==> (#[trigger] v@[j]).loadable(),
        decreases v@.len() - i,
    {
        if v[i].resource_type >= RESOURCE_COUNT || v[i].id.res_type >= RESOURCE_COUNT {
            assert(!v@[i as int].loadable());
            return false;
        }
        i += 1;
    }
    true
}

/// Whether every saved upgrade can be loaded.
pub fn all_upgrades_loadable(v: &Vec<UpgradeSave>) -> (r: bool)
    ensures
        r == forall|i: int| 0 <= i < v@.len() ==> (#[trigger] v@[i]).loadable(),
{
    let mut i: usize = 0;
    while i < v.len()
        invariant
            0 <= i <= v@.len(),
            forall|j: int| 0 <= j < i ==> (#[trigger] v@[j]).loadable(),
        decreases v@.len() - i,
    {
        if v[i].effected_generator.res_type >= RESOURCE_COUNT {
            assert(!v@[i as int].loadable());
            return false;
        }
        i += 1;
    }
    true
}

} // verus!
