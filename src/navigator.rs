use vstd::prelude::*;

use crate::level::{entry_views, Entry, Level};
use crate::model::{
    initial_view, lemma_base_loaded_wf, lemma_fetched_wf, lemma_focus_wf,
    lemma_invalidated_below_wf, lemma_moves_wf, outcome_view, NavView,
};

verus! {

/// The terminal action that a dispatch hands the resolved path to.
#[derive(Clone, Copy, PartialEq, Eq, Debug)]
pub enum ActionKind {
    /// Open an interactive shell on the selected leaf.
    Shell,
    /// Forward a network port from the selected leaf.
    PortForward,
}

/// A navigator command, as produced by the input router.
#[derive(Clone, Copy, PartialEq, Eq, Debug)]
pub enum Command {
    FocusPrev,
    FocusNext,
    MoveUp,
    MoveDown,
    Dispatch(ActionKind),
    Quit,
}

/// A request to the resource directory: the contents of `level`, below the
/// selected entries `parents` of every level above it.
pub struct FetchRequest {
    pub level: usize,
    pub parents: Vec<Entry>,
}

/// A successful dispatch: the action and the resolved path, one entry per
/// depth, captured by value.
pub struct Dispatched {
    pub action: ActionKind,
    pub path: Vec<Entry>,
}

/// What the session does after a command.
pub enum Step {
    /// Keep navigating.
    Continue,
    /// A dispatch was asked for without a fully resolved path; nothing changed.
    Rejected,
    /// Hand the terminal over to the action and end the session.
    Dispatch(Dispatched),
    /// End the session without an action.
    Quit,
}

/// The navigation state: one level per depth of the hierarchy and the
/// focused depth.
pub struct Navigator {
    pub levels: Vec<Level>,
    pub focus: usize,
}

impl View for Navigator {
    type V = NavView;

    open spec fn view(&self) -> NavView {
        NavView { levels: self.levels@.map_values(|l: Level| l@), focus: self.focus as int }
    }
}

/// Clears every level deeper than `depth`, keeping the others and the focus.
pub fn reset_following(state: &mut Navigator, depth: usize)
    ensures
        final(state)@ == old(state)@.invalidated_below(depth as int),
        old(state)@.wf() ==> final(state)@.wf(),
{
    proof {
        if old(state)@.wf() {
            lemma_invalidated_below_wf(old(state)@, depth as int);
        }
    }
    let ghost start = state@;
    let n = state.levels.len();
    let mut i: usize = depth;
    while i < n
        invariant
            start == old(state)@,
            n == state.levels.len(),
            n == start.levels.len(),
            depth <= i <= n || (i == depth && depth >= n),
            state.focus == old(state).focus,
            forall|j: int|
                0 <= j < n ==> #[trigger] state.levels@[j]@ == (if depth < j <= i {
                    start.levels[j].cleared()
                } else {
                    start.levels[j]
                }),
        decreases n - i,
    {
        if i + 1 < n {
            state.levels[i + 1].clear();
        }
        i = i + 1;
    }
    assert(state@.levels =~= start.invalidated_below(depth as int).levels);
}

impl Navigator {
    /// A fresh session: one empty level per title, focus on the base level.
    pub fn new(titles: Vec<String>) -> (r: Navigator)
        requires
            titles.len() >= 1,
        ensures
            r@ == initial_view(titles@.map_values(|t: String| t@)),
            r@.wf(),
    {
        let ghost names = titles@.map_values(|t: String| t@);
        let mut levels: Vec<Level> = Vec::new();
        let mut i: usize = 0;
        while i < titles.len()
            invariant
                names == titles@.map_values(|t: String| t@),
                i <= titles.len(),
                levels.len() == i,
                forall|j: int| 0 <= j < i ==> #[trigger] levels@[j]@ == initial_view(names).levels[j],
            decreases titles.len() - i,
        {
            levels.push(Level::new(titles[i].clone()));
            i = i + 1;
        }
        let r = Navigator { levels, focus: 0 };
        assert(r@.levels =~= initial_view(names).levels);
        r
    }

    pub fn depth(&self) -> (r: usize)
        ensures
            r == self@.depth(),
    {
        self.levels.len()
    }

    pub fn focus(&self) -> (r: usize)
        ensures
            r == self@.focus,
    {
        self.focus
    }

    /// The selected entry at depth `d`; `None` when that level has no
    /// selection or the hierarchy has no such depth.
    pub fn selected_entry(&self, d: usize) -> (r: Option<&Entry>)
        requires
            self@.wf(),
        ensures
            r is Some <==> (d < self@.depth() && self@.levels[d as int].has_selection()),
            r matches Some(e) ==> e@ == self@.levels[d as int].selected_entry(),
    {
        if d >= self.levels.len() {
            return None;
        }
        assert(self@.levels[d as int] == self.levels@[d as int]@);
        assert(self@.levels[d as int].wf());
        self.levels[d].selected_entry()
    }

    /// Fills the base level with `entries`, clearing every deeper level.
    pub fn load_base(&mut self, entries: Vec<Entry>)
        requires
            old(self)@.wf(),
        ensures
            final(self)@ == old(self)@.base_loaded(entry_views(entries@)),
            final(self)@.wf(),
    {
        proof {
            lemma_base_loaded_wf(self@, entry_views(entries@));
        }
        let ghost e = entry_views(entries@);
        self.levels[0].set(entries);
        assert(self@.levels =~= old(self)@.levels.update(0, old(self)@.levels[0].filled(e)));
        reset_following(self, 0);
    }

    pub fn focus_prev(&mut self)
        requires
            old(self)@.wf(),
        ensures
            final(self)@ == old(self)@.focus_prev(),
            final(self)@.wf(),
    {
        proof {
            lemma_focus_wf(self@);
        }
        if self.focus > 0 {
            self.focus = self.focus - 1;
        }
    }

    pub fn focus_next(&mut self)
        requires
            old(self)@.wf(),
        ensures
            final(self)@ == old(self)@.focus_next(),
            final(self)@.wf(),
    {
        proof {
            lemma_focus_wf(self@);
        }
        let n = self.levels.len();
        if self.focus < n - 1 {
            self.focus = self.focus + 1;
        }
    }

    /// Moves the focused selection up; when it changes, every deeper level
    /// is cleared, and otherwise nothing changes. Returns whether it changed.
    pub fn move_up(&mut self) -> (changed: bool)
        requires
            old(self)@.wf(),
        ensures
            final(self)@ == old(self)@.move_up(),
            final(self)@.wf(),
            changed == (final(self)@.focused().selected != old(self)@.focused().selected),
    {
        proof {
            lemma_moves_wf(self@);
        }
        let f = self.focus;
        let ghost before = self@;
        assert(before.levels[f as int].wf());
        let changed = self.levels[f].move_up();
        assert(self@.levels =~= before.levels.update(f as int, before.focused().stepped_up()));
        if changed {
            reset_following(self, f);
        } else {
            assert(before.focused().stepped_up() == before.focused());
            assert(self@.levels =~= before.levels);
        }
        changed
    }

    /// Moves the focused selection down, stopping at the last entry; on a
    /// non-empty level every deeper level is cleared, even when the
    /// selection stays. Returns whether the selection changed.
    pub fn move_down(&mut self) -> (changed: bool)
        requires
            old(self)@.wf(),
        ensures
            final(self)@ == old(self)@.move_down(),
            final(self)@.wf(),
            changed == (final(self)@.focused().selected != old(self)@.focused().selected),
    {
        proof {
            lemma_moves_wf(self@);
        }
        let f = self.focus;
        let ghost before = self@;
        assert(before.levels[f as int].wf());
        if self.levels[f].entries.len() == 0 {
            return false;
        }
        let changed = self.levels[f].move_down();
        assert(self@.levels =~= before.levels.update(f as int, before.focused().stepped_down()));
        reset_following(self, f);
        changed
    }

    /// Copies of the selected entries of the levels above depth `n`.
    pub fn selected_path(&self, n: usize) -> (r: Vec<Entry>)
        requires
            self@.wf(),
            n <= self@.depth(),
            forall|d: int| 0 <= d < n ==> #[trigger] self@.levels[d].has_selection(),
        ensures
            entry_views(r@) == self@.path(n as int),
    {
        let mut r: Vec<Entry> = Vec::new();
        let mut i: usize = 0;
        while i < n
            invariant
                self@.wf(),
                i <= n <= self@.depth(),
                forall|d: int| 0 <= d < n ==> #[trigger] self@.levels[d].has_selection(),
                entry_views(r@) == self@.path(i as int),
            decreases n - i,
        {
            assert(self@.levels[i as int] == self.levels@[i as int]@);
            assert(self@.levels[i as int].has_selection());
            assert(self@.levels[i as int].wf());
            let k = match self.levels[i].selected {
                Some(k) => k,
                None => 0,
            };
            let ghost prev = r@;
            let e = self.levels[i].entries[k].duplicate();
            assert(e@ == self@.levels[i as int].selected_entry());
            r.push(e);
            assert(entry_views(r@) =~= entry_views(prev).push(e@));
            i = i + 1;
            assert(entry_views(r@) =~= self@.path(i as int));
        }
        r
    }

    /// The lazy-fetch check: a request for the focused level when it is
    /// empty, is not the base level, and its parent has a selection;
    /// otherwise `None`, and no fetch is to be made.
    pub fn fetch_request(&self) -> (r: Option<FetchRequest>)
        requires
            self@.wf(),
        ensures
            r is Some <==> self@.fetch_due(),
            r matches Some(q) ==> q.level == self@.focus && entry_views(q.parents@) == self@.path(
                self@.focus,
            ),
    {
        let f = self.focus;
        if f == 0 || self.levels[f].entries.len() > 0 || self.levels[f - 1].selected.is_none() {
            return None;
        }
        proof {
            assert forall|d: int| 0 <= d < f implies #[trigger] self@.levels[d].has_selection() by {
                if d < f - 1 {
                    assert(self@.levels[f - 1].wf());
                    assert(self@.levels[f - 1].entries.len() > 0);
                }
            }
        }
        let parents = self.selected_path(f);
        Some(FetchRequest { level: f, parents })
    }

    /// Lands the outcome of `request`: a success fills the level, with its
    /// first entry selected, provided the level is still empty and the
    /// selections above it are still the request's parents. A failure, or a
    /// result that would land under a stale key, leaves the state as it is.
    pub fn apply_fetch(&mut self, request: &FetchRequest, outcome: Option<Vec<Entry>>)
        requires
            old(self)@.wf(),
        ensures
            final(self)@ == old(self)@.fetched(
                request.level as int,
                entry_views(request.parents@),
                outcome_view(outcome),
            ),
            final(self)@.wf(),
    {
        proof {
            lemma_fetched_wf(
                self@,
                request.level as int,
                entry_views(request.parents@),
                outcome_view(outcome),
            );
        }
        let l = request.level;
        match outcome {
            None => {},
            Some(entries) => {
                if l == 0 || l >= self.levels.len() || self.levels[l].entries.len() > 0
                    || self.levels[l - 1].selected.is_none() {
                    return ;
                }
                proof {
                    assert forall|d: int| 0 <= d < l implies #[trigger] self@.levels[d].has_selection() by {
                        if d < l - 1 {
                            assert(self@.levels[l - 1].wf());
                            assert(self@.levels[l - 1].entries.len() > 0);
                        }
                    }
                }
                let current = self.selected_path(l);
                if !same_entries(&current, &request.parents) {
                    return ;
                }
                let ghost before = self@;
                let ghost e = entry_views(entries@);
                self.levels[l].set(entries);
                assert(self@.levels =~= before.levels.update(l as int, before.levels[l as int].filled(e)));
            },
        }
    }

    /// Whether a dispatch is permitted now.
    pub fn can_dispatch(&self) -> (r: bool)
        requires
            self@.wf(),
        ensures
            r == self@.can_dispatch(),
    {
        let n = self.levels.len();
        self.focus == n - 1 && self.levels[self.focus].selected.is_some()
    }

    /// The resolved path for `action`, when a dispatch is permitted.
    pub fn dispatch(&self, action: ActionKind) -> (r: Option<Dispatched>)
        requires
            self@.wf(),
        ensures
            r is Some <==> self@.can_dispatch(),
            r matches Some(d) ==> d.action == action && entry_views(d.path@) == self@.resolved_path(),
    {
        if !self.can_dispatch() {
            return None;
        }
        let n = self.levels.len();
        proof {
            assert forall|d: int| 0 <= d < n implies #[trigger] self@.levels[d].has_selection() by {
                if d < n - 1 {
                    assert(self@.levels[n - 1].wf());
                    assert(self@.levels[n - 1].entries.len() > 0);
                }
            }
        }
        let path = self.selected_path(n);
        Some(Dispatched { action, path })
    }

    /// Applies one command. Focus and selection commands change the state
    /// as their own methods do; a dispatch and a quit leave it unchanged.
    pub fn apply(&mut self, command: Command) -> (step: Step)
        requires
            old(self)@.wf(),
        ensures
            final(self)@.wf(),
            command == Command::FocusPrev ==> final(self)@ == old(self)@.focus_prev()
                && step is Continue,
            command == Command::FocusNext ==> final(self)@ == old(self)@.focus_next()
                && step is Continue,
            command == Command::MoveUp ==> final(self)@ == old(self)@.move_up() && step is Continue,
            command == Command::MoveDown ==> final(self)@ == old(self)@.move_down()
                && step is Continue,
            command == Command::Quit ==> final(self)@ == old(self)@ && step is Quit,
            command matches Command::Dispatch(action) ==> {
                &&& final(self)@ == old(self)@
                &&& (step is Dispatch <==> old(self)@.can_dispatch())
                &&& (step is Rejected <==> !old(self)@.can_dispatch())
                &&& (step matches Step::Dispatch(d) ==> d.action == action && entry_views(d.path@)
                    == old(self)@.resolved_path())
            },
    {
        match command {
            Command::FocusPrev => {
                self.focus_prev();
                Step::Continue
            },
            Command::FocusNext => {
                self.focus_next();
                Step::Continue
            },
            Command::MoveUp => {
                self.move_up();
                Step::Continue
            },
            Command::MoveDown => {
                self.move_down();
                Step::Continue
            },
            Command::Dispatch(action) => match self.dispatch(action) {
                Some(d) => Step::Dispatch(d),
                None => Step::Rejected,
            },
            Command::Quit => Step::Quit,
        }
    }
}

/// Whether two entry lists are equal, entry by entry.
pub fn same_entries(a: &Vec<Entry>, b: &Vec<Entry>) -> (r: bool)
    ensures
        r == (entry_views(a@) == entry_views(b@)),
{
    if a.len() != b.len() {
        assert(entry_views(a@).len() != entry_views(b@).len());
        return false;
    }
    let mut i: usize = 0;
    while i < a.len()
        invariant
            a.len() == b.len(),
            i <= a.len(),
            forall|j: int| 0 <= j < i ==> a@[j]@ == b@[j]@,
        decreases a.len() - i,
    {
        if !same_entry(&a[i], &b[i]) {
            assert(entry_views(a@)[i as int] != entry_views(b@)[i as int]);
            return false;
        }
        i = i + 1;
    }
    assert(entry_views(a@) =~= entry_views(b@));
    true
}

/// Whether two entries agree on every field.
pub fn same_entry(a: &Entry, b: &Entry) -> (r: bool)
    ensures
        r == (a@ == b@),
{
    let aux_same = match &a.aux {
        Some(x) => match &b.aux {
            Some(y) => *x == *y,
            None => false,
        },
        None => b.aux.is_none(),
    };
    a.name == b.name && a.id == b.id && aux_same
}

} // verus!
