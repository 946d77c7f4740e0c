use vstd::prelude::*;

use crate::level::{entry_views, Entry, EntryView, LevelView};

verus! {

/// Mathematical model of a navigation session: one level per depth of the
/// hierarchy and the focused depth.
pub struct NavView {
    pub levels: Seq<LevelView>,
    pub focus: int,
}

/// The state in which a session starts: one empty level per title, focus
/// on the base level.
pub open spec fn initial_view(titles: Seq<Seq<char>>) -> NavView {
    NavView {
        levels: Seq::new(
            titles.len(),
            |i: int| LevelView { title: titles[i], entries: Seq::empty(), selected: None },
        ),
        focus: 0,
    }
}

/// What a fetch delivered, or `None` when it failed or timed out.
pub open spec fn outcome_view(outcome: Option<Vec<Entry>>) -> Option<Seq<EntryView>> {
    match outcome {
        Some(v) => Some(entry_views(v@)),
        None => None,
    }
}

impl NavView {
    pub open spec fn depth(self) -> int {
        self.levels.len() as int
    }

    pub open spec fn deepest(self) -> int {
        self.depth() - 1
    }

    /// Every level's selection is absent on empty contents and in range
    /// otherwise.
    pub open spec fn selections_in_range(self) -> bool {
        forall|d: int| 0 <= d < self.depth() ==> #[trigger] self.levels[d].wf()
    }

    /// A level holds contents only below levels that all have a selection.
    pub open spec fn cache_valid(self) -> bool {
        forall|e: int, d: int|
            0 <= e < d < self.depth() && (#[trigger] self.levels[d]).entries.len() > 0
                ==> (#[trigger] self.levels[e]).has_selection()
    }

    pub open spec fn wf(self) -> bool {
        &&& 1 <= self.depth()
        &&& 0 <= self.focus < self.depth()
        &&& self.selections_in_range()
        &&& self.cache_valid()
    }

    pub open spec fn focused(self) -> LevelView {
        self.levels[self.focus]
    }

    pub open spec fn focus_prev(self) -> NavView {
        NavView { focus: if self.focus > 0 { self.focus - 1 } else { 0 }, ..self }
    }

    pub open spec fn focus_next(self) -> NavView {
        NavView {
            focus: if self.focus + 1 < self.depth() { self.focus + 1 } else { self.focus },
            ..self
        }
    }

    /// Every level deeper than `d` cleared, the others kept.
    pub open spec fn invalidated_below(self, d: int) -> NavView {
        NavView {
            levels: Seq::new(
                self.levels.len(),
                |i: int| if i > d { self.levels[i].cleared() } else { self.levels[i] },
            ),
            ..self
        }
    }

    /// The focused level replaced by `l`, every deeper level cleared.
    pub open spec fn replaced(self, l: LevelView) -> NavView {
        NavView { levels: self.levels.update(self.focus, l), ..self }.invalidated_below(self.focus)
    }

    /// One step up at the focused level; a no-op when the level is empty or
    /// its first entry is selected, else the deeper levels are cleared.
    pub open spec fn move_up(self) -> NavView {
        if self.focused().stepped_up().selected != self.focused().selected {
            self.replaced(self.focused().stepped_up())
        } else {
            self
        }
    }

    /// One step down at the focused level, stopping at its last entry; on a
    /// non-empty level the deeper levels are cleared even when the
    /// selection stays, and an empty level is left as it is.
    pub open spec fn move_down(self) -> NavView {
        if self.focused().entries.len() > 0 {
            self.replaced(self.focused().stepped_down())
        } else {
            self
        }
    }

    /// The base level filled with `entries`, every deeper level cleared.
    pub open spec fn base_loaded(self, entries: Seq<EntryView>) -> NavView {
        NavView { levels: self.levels.update(0, self.levels[0].filled(entries)), ..self }.invalidated_below(0)
    }

    /// The selected entries of the levels above depth `n`, in depth order.
    pub open spec fn path(self, n: int) -> Seq<EntryView> {
        Seq::new(n as nat, |i: int| self.levels[i].selected_entry())
    }

    /// A lazy fetch is due: the focused level is empty, is not the base
    /// level, and its parent has a selection.
    pub open spec fn fetch_due(self) -> bool {
        &&& self.focus > 0
        &&& self.focused().entries.len() == 0
        &&& self.levels[self.focus - 1].has_selection()
    }

    /// The result of a fetch for `level`, keyed on the ancestors `parents`,
    /// lands only if it succeeded, the level is still empty, and the current
    /// selections above it are still exactly `parents`.
    pub open spec fn fetch_lands(self, level: int, parents: Seq<EntryView>) -> bool {
        &&& 0 < level < self.depth()
        &&& self.levels[level].entries.len() == 0
        &&& self.levels[level - 1].has_selection()
        &&& parents == self.path(level)
    }

    pub open spec fn fetched(self, level: int, parents: Seq<EntryView>, outcome: Option<
        Seq<EntryView>,
    >) -> NavView {
        if outcome is Some && self.fetch_lands(level, parents) {
            NavView {
                levels: self.levels.update(level, self.levels[level].filled(outcome->0)),
                ..self
            }
        } else {
            self
        }
    }

    /// A dispatch is permitted: the focus is on the deepest level and that
    /// level has a selection.
    pub open spec fn can_dispatch(self) -> bool {
        self.focus == self.deepest() && self.focused().has_selection()
    }

    /// The resolved path: one selected entry per depth.
    pub open spec fn resolved_path(self) -> Seq<EntryView> {
        self.path(self.depth())
    }

    /// Every level, from the base to the deepest, has a selection.
    pub open spec fn fully_selected(self) -> bool {
        forall|d: int| 0 <= d < self.depth() ==> #[trigger] self.levels[d].has_selection()
    }
}

/// The initial state satisfies both invariants.
pub proof fn lemma_initial_wf(titles: Seq<Seq<char>>)
    requires
        titles.len() >= 1,
    ensures
        initial_view(titles).wf(),
{
}

/// Clearing every level below `d` keeps both invariants.
pub proof fn lemma_invalidated_below_wf(s: NavView, d: int)
    requires
        s.wf(),
        0 <= d,
    ensures
        s.invalidated_below(d).wf(),
{
    let t = s.invalidated_below(d);
    assert forall|e: int, k: int|
        0 <= e < k < t.depth() && (#[trigger] t.levels[k]).entries.len() > 0 implies (
        #[trigger] t.levels[e]).has_selection() by {
        assert(s.levels[k].entries.len() > 0);
        assert(s.levels[e].has_selection());
    }
}

/// Selection changes at the focused level keep both invariants.
pub proof fn lemma_moves_wf(s: NavView)
    requires
        s.wf(),
    ensures
        s.move_up().wf(),
        s.move_down().wf(),
{
    assert(s.levels[s.focus].wf());
    lemma_replaced_wf(s, s.focused().stepped_up());
    lemma_replaced_wf(s, s.focused().stepped_down());
}

proof fn lemma_replaced_wf(s: NavView, l: LevelView)
    requires
        s.wf(),
        l.wf(),
        l.entries == s.focused().entries,
    ensures
        s.replaced(l).wf(),
{
    let u = NavView { levels: s.levels.update(s.focus, l), ..s };
    assert(u.wf()) by {
        assert forall|e: int, k: int|
            0 <= e < k < u.depth() && (#[trigger] u.levels[k]).entries.len() > 0 implies (
            #[trigger] u.levels[e]).has_selection() by {
            assert(s.levels[k].entries.len() > 0);
            assert(s.levels[e].has_selection());
            assert(s.levels[e].wf());
        }
    }
    lemma_invalidated_below_wf(u, s.focus);
}

/// Focus moves keep both invariants.
pub proof fn lemma_focus_wf(s: NavView)
    requires
        s.wf(),
    ensures
        s.focus_prev().wf(),
        s.focus_next().wf(),
{
}

/// Loading the base level keeps both invariants.
pub proof fn lemma_base_loaded_wf(s: NavView, entries: Seq<EntryView>)
    requires
        s.wf(),
    ensures
        s.base_loaded(entries).wf(),
{
    let u = NavView { levels: s.levels.update(0, s.levels[0].filled(entries)), ..s };
    let t = u.invalidated_below(0);
    assert forall|e: int, k: int|
        0 <= e < k < t.depth() && (#[trigger] t.levels[k]).entries.len() > 0 implies (
        #[trigger] t.levels[e]).has_selection() by {}
    assert(t.selections_in_range());
}

/// Landing a fetch result keeps both invariants.
pub proof fn lemma_fetched_wf(s: NavView, level: int, parents: Seq<EntryView>, outcome: Option<Seq<EntryView>>)
    requires
        s.wf(),
    ensures
        s.fetched(level, parents, outcome).wf(),
{
    if outcome is Some && s.fetch_lands(level, parents) {
        let t = s.fetched(level, parents, outcome);
        assert forall|e: int, k: int|
            0 <= e < k < t.depth() && (#[trigger] t.levels[k]).entries.len() > 0 implies (
            #[trigger] t.levels[e]).has_selection() by {
            assert(s.levels[level - 1].wf());
            assert(s.levels[level].wf());
            if k == level {
                if e < level - 1 {
                    assert(s.levels[level - 1].entries.len() > 0);
                    assert(s.levels[e].has_selection());
                }
            } else if k > level {
                assert(s.levels[k].entries.len() > 0);
                assert(s.levels[level].has_selection());
            } else {
                assert(s.levels[k].entries.len() > 0);
                assert(s.levels[e].has_selection());
            }
        }
        assert(t.selections_in_range());
    }
}


/// Every transition of the navigator keeps both invariants: each non-empty
/// level sits below levels that all have a selection, and each selection is
/// in range for its level's contents.
pub proof fn lemma_transitions_keep_invariants(
    s: NavView,
    base: Seq<EntryView>,
    level: int,
    parents: Seq<EntryView>,
    outcome: Option<Seq<EntryView>>,
)
    requires
        s.wf(),
    ensures
        s.focus_prev().wf(),
        s.focus_next().wf(),
        s.move_up().wf(),
        s.move_down().wf(),
        s.base_loaded(base).wf(),
        s.fetched(level, parents, outcome).wf(),
{
    lemma_focus_wf(s);
    lemma_moves_wf(s);
    lemma_base_loaded_wf(s, base);
    lemma_fetched_wf(s, level, parents, outcome);
}

/// The lazy-fetch check asks for nothing while the focused level holds
/// contents; after a non-empty result has landed, asking again asks for
/// nothing.
pub proof fn lemma_fetch_idempotent(s: NavView, entries: Seq<EntryView>)
    requires
        s.wf(),
    ensures
        s.focused().entries.len() > 0 ==> !s.fetch_due(),
        s.fetch_due() && entries.len() > 0 ==> !s.fetched(
            s.focus,
            s.path(s.focus),
            Some(entries),
        ).fetch_due(),
{
}

/// A move that changes the focused selection leaves every deeper level
/// empty, whatever it held before; a move down on a non-empty level does so
/// even when the selection stays.
pub proof fn lemma_move_invalidates(s: NavView)
    requires
        s.wf(),
    ensures
        s.move_up().focused().selected != s.focused().selected ==> forall|d: int|
            s.focus < d < s.depth() ==> (#[trigger] s.move_up().levels[d]).entries.len() == 0,
        s.move_down().focused().selected != s.focused().selected ==> forall|d: int|
            s.focus < d < s.depth() ==> (#[trigger] s.move_down().levels[d]).entries.len() == 0,
        s.focused().entries.len() > 0 ==> forall|d: int|
            s.focus < d < s.depth() ==> (#[trigger] s.move_down().levels[d]).entries.len() == 0,
{
}

/// A dispatch is permitted exactly when the focus is on the deepest level
/// and every level, from the base down to the deepest, has a selection.
pub proof fn lemma_dispatch_gating(s: NavView)
    requires
        s.wf(),
    ensures
        s.can_dispatch() <==> (s.focus == s.deepest() && s.fully_selected()),
{
    if s.can_dispatch() {
        assert forall|d: int| 0 <= d < s.depth() implies #[trigger] s.levels[d].has_selection() by {
            assert(s.levels[s.deepest()].wf());
            if d < s.deepest() {
                assert(s.levels[s.deepest()].entries.len() > 0);
            }
        }
    }
    if s.focus == s.deepest() && s.fully_selected() {
        assert(s.levels[s.deepest()].has_selection());
    }
}

} // verus!
