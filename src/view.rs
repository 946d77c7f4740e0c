use vstd::prelude::*;

use crate::level::{EntryView, Level};
use crate::navigator::Navigator;

verus! {

/// One line of the summary panel: a level's title and the name selected
/// there, or `None` where a placeholder is shown.
pub struct SummaryLine {
    pub title: String,
    pub value: Option<String>,
}

/// One box of the level-indicator strip.
pub struct Tab {
    pub title: String,
    pub focused: bool,
}

/// What the screen shows for a navigator state.
pub struct ViewModel {
    /// Title of the focused level.
    pub title: String,
    /// Display names of the focused level's contents, in order.
    pub items: Vec<String>,
    /// Position of the highlighted item, `None` when there are no items.
    pub highlighted: Option<usize>,
    /// The focused level has no items: the explicit empty marker.
    pub empty: bool,
    /// One line per level, from the base down.
    pub summary: Vec<SummaryLine>,
    /// One box per level, the focused one marked.
    pub tabs: Vec<Tab>,
    /// A dispatch is permitted now.
    pub can_dispatch: bool,
    /// The deepest level has a selection, so the dispatch keys have a
    /// target to act on.
    pub leaf_selected: bool,
}

/// The display names of a level's contents.
pub open spec fn names_of(entries: Seq<EntryView>) -> Seq<Seq<char>> {
    entries.map_values(|e: EntryView| e.name)
}

/// The models of a list of strings.
pub open spec fn string_views(s: Seq<String>) -> Seq<Seq<char>> {
    s.map_values(|t: String| t@)
}

fn item_names(level: &Level) -> (r: Vec<String>)
    ensures
        string_views(r@) == names_of(level@.entries),
{
    let mut r: Vec<String> = Vec::new();
    let mut i: usize = 0;
    while i < level.entries.len()
        invariant
            i <= level.entries.len(),
            string_views(r@) == names_of(level@.entries).subrange(0, i as int),
        decreases level.entries.len() - i,
    {
        let ghost prev = r@;
        r.push(level.entries[i].name.clone());
        assert(string_views(r@) =~= string_views(prev).push(level.entries@[i as int].name@));
        i = i + 1;
        assert(string_views(r@) =~= names_of(level@.entries).subrange(0, i as int));
    }
    assert(names_of(level@.entries).subrange(0, i as int) =~= names_of(level@.entries));
    r
}

fn summary_line(level: &Level) -> (r: SummaryLine)
    requires
        level@.wf(),
    ensures
        r.title@ == level@.title,
        r.value is Some <==> level@.has_selection(),
        r.value matches Some(v) ==> v@ == level@.selected_entry().name,
{
    let value = match level.selected_entry() {
        Some(e) => Some(e.name.clone()),
        None => None,
    };
    SummaryLine { title: level.title.clone(), value }
}

/// Projects a navigator state onto what the screen shows; reads the state
/// and nothing else.
pub fn project(state: &Navigator) -> (r: ViewModel)
    requires
        state@.wf(),
    ensures
        r.title@ == state@.focused().title,
        string_views(r.items@) == names_of(state@.focused().entries),
        r.highlighted == state@.focused().selected,
        r.empty == (state@.focused().entries.len() == 0),
        r.summary.len() == state@.depth(),
        forall|d: int|
            0 <= d < state@.depth() ==> {
                &&& (#[trigger] r.summary@[d]).title@ == state@.levels[d].title
                &&& (r.summary@[d].value is Some <==> state@.levels[d].has_selection())
                &&& (r.summary@[d].value matches Some(v) ==> v@
                    == state@.levels[d].selected_entry().name)
            },
        r.tabs.len() == state@.depth(),
        forall|d: int|
            0 <= d < state@.depth() ==> {
                &&& (#[trigger] r.tabs@[d]).title@ == state@.levels[d].title
                &&& r.tabs@[d].focused == (d == state@.focus)
            },
        r.can_dispatch == state@.can_dispatch(),
        r.leaf_selected == state@.levels[state@.deepest()].has_selection(),
{
    let n = state.levels.len();
    let mut summary: Vec<SummaryLine> = Vec::new();
    let mut tabs: Vec<Tab> = Vec::new();
    let mut i: usize = 0;
    while i < n
        invariant
            state@.wf(),
            n == state@.depth(),
            i <= n,
            summary.len() == i,
            tabs.len() == i,
            forall|d: int|
                0 <= d < i ==> {
                    &&& (#[trigger] summary@[d]).title@ == state@.levels[d].title
                    &&& (summary@[d].value is Some <==> state@.levels[d].has_selection())
                    &&& (summary@[d].value matches Some(v) ==> v@
                        == state@.levels[d].selected_entry().name)
                },
            forall|d: int|
                0 <= d < i ==> {
                    &&& (#[trigger] tabs@[d]).title@ == state@.levels[d].title
                    &&& tabs@[d].focused == (d == state@.focus)
                },
        decreases n - i,
    {
        let level = &state.levels[i];
        assert(state@.levels[i as int] == level@);
        assert(state@.levels[i as int].wf());
        summary.push(summary_line(level));
        tabs.push(Tab { title: level.title.clone(), focused: i == state.focus });
        i = i + 1;
    }
    let focused = &state.levels[state.focus];
    assert(state@.focused() == focused@);
    ViewModel {
        title: focused.title.clone(),
        items: item_names(focused),
        highlighted: focused.selected,
        empty: focused.entries.len() == 0,
        summary,
        tabs,
        can_dispatch: state.can_dispatch(),
        leaf_selected: state.levels[n - 1].selected.is_some(),
    }
}

} // verus!
