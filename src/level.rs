use vstd::prelude::*;

verus! {

/// One child record of a level: what is shown, what identifies it to the
/// resource directory, and an optional auxiliary field (a runtime id).
pub struct Entry {
    pub name: String,
    pub id: String,
    pub aux: Option<String>,
}

/// Mathematical model of an entry.
pub struct EntryView {
    pub name: Seq<char>,
    pub id: Seq<char>,
    pub aux: Option<Seq<char>>,
}

impl View for Entry {
    type V = EntryView;

    open spec fn view(&self) -> EntryView {
        EntryView {
            name: self.name@,
            id: self.id@,
            aux: match self.aux {
                Some(a) => Some(a@),
                None => None,
            },
        }
    }
}

/// The models of a sequence of entries, in order.
pub open spec fn entry_views(s: Seq<Entry>) -> Seq<EntryView> {
    s.map_values(|e: Entry| e@)
}

impl Entry {
    pub fn new(name: String, id: String, aux: Option<String>) -> (r: Entry)
        ensures
            r == (Entry { name, id, aux }),
    {
        Entry { name, id, aux }
    }

    /// A copy of this entry, field for field.
    pub fn duplicate(&self) -> (r: Entry)
        ensures
            r == *self,
    {
        let aux = match &self.aux {
            Some(a) => Some(a.clone()),
            None => None,
        };
        Entry { name: self.name.clone(), id: self.id.clone(), aux }
    }
}

/// Mathematical model of a level: its title, its ordered contents and the
/// selected position, absent exactly when the contents are empty.
pub struct LevelView {
    pub title: Seq<char>,
    pub entries: Seq<EntryView>,
    pub selected: Option<usize>,
}

impl LevelView {
    /// The selection is absent on empty contents and in range otherwise.
    pub open spec fn wf(self) -> bool {
        &&& (self.selected is None <==> self.entries.len() == 0)
        &&& (self.selected matches Some(i) ==> i < self.entries.len())
    }

    pub open spec fn has_selection(self) -> bool {
        self.selected is Some
    }

    /// The selected entry; meaningful only when there is a selection.
    pub open spec fn selected_entry(self) -> EntryView {
        self.entries[self.selected->0 as int]
    }

    /// The level with the same title and the given contents, the first one
    /// selected when there is any.
    pub open spec fn filled(self, entries: Seq<EntryView>) -> LevelView {
        LevelView {
            title: self.title,
            entries,
            selected: if entries.len() > 0 { Some(0usize) } else { None },
        }
    }

    /// The level with the same title, no contents and no selection.
    pub open spec fn cleared(self) -> LevelView {
        LevelView { title: self.title, entries: Seq::empty(), selected: None }
    }

    /// The level after moving the selection one step towards the start.
    pub open spec fn stepped_up(self) -> LevelView {
        match self.selected {
            Some(i) if i > 0 => LevelView { selected: Some((i - 1) as usize), ..self },
            _ => self,
        }
    }

    /// The level after moving the selection one step towards the end.
    pub open spec fn stepped_down(self) -> LevelView {
        match self.selected {
            Some(i) if i + 1 < self.entries.len() => LevelView {
                selected: Some((i + 1) as usize),
                ..self
            },
            _ => self,
        }
    }
}

/// One rung of the hierarchy: a title, ordered contents and a selection.
pub struct Level {
    pub title: String,
    pub entries: Vec<Entry>,
    pub selected: Option<usize>,
}

impl View for Level {
    type V = LevelView;

    open spec fn view(&self) -> LevelView {
        LevelView {
            title: self.title@,
            entries: entry_views(self.entries@),
            selected: self.selected,
        }
    }
}

impl Level {
    /// An empty level with the given title.
    pub fn new(title: String) -> (r: Level)
        ensures
            r@ == (LevelView { title: title@, entries: Seq::empty(), selected: None }),
            r@.wf(),
    {
        let r = Level { title, entries: Vec::new(), selected: None };
        assert(r@.entries =~= Seq::<EntryView>::empty());
        r
    }

    pub fn len(&self) -> (r: usize)
        ensures
            r == self@.entries.len(),
    {
        self.entries.len()
    }

    pub fn is_empty(&self) -> (r: bool)
        ensures
            r == (self@.entries.len() == 0),
    {
        self.entries.len() == 0
    }

    /// Replaces the contents; the first entry becomes selected, if any.
    pub fn set(&mut self, entries: Vec<Entry>)
        ensures
            final(self)@ == old(self)@.filled(entry_views(entries@)),
            final(self)@.wf(),
    {
        self.selected = if entries.len() > 0 { Some(0) } else { None };
        self.entries = entries;
    }

    /// Empties the contents and drops the selection.
    pub fn clear(&mut self)
        ensures
            final(self)@ == old(self)@.cleared(),
            final(self)@.wf(),
    {
        self.entries = Vec::new();
        self.selected = None;
        assert(self@.entries =~= Seq::<EntryView>::empty());
    }

    /// The selected entry, or `None` when the level is empty.
    pub fn selected_entry(&self) -> (r: Option<&Entry>)
        requires
            self@.wf(),
        ensures
            self@.has_selection() ==> (r matches Some(e) && e@ == self@.selected_entry()),
            !self@.has_selection() ==> r is None,
    {
        match self.selected {
            Some(i) => Some(&self.entries[i]),
            None => None,
        }
    }

    /// Moves the selection one step up; returns whether it changed.
    pub fn move_up(&mut self) -> (changed: bool)
        requires
            old(self)@.wf(),
        ensures
            final(self)@ == old(self)@.stepped_up(),
            final(self)@.wf(),
            changed == (final(self)@.selected != old(self)@.selected),
    {
        match self.selected {
            Some(i) => {
                if i > 0 {
                    self.selected = Some(i - 1);
                    true
                } else {
                    false
                }
            },
            None => false,
        }
    }

    /// Moves the selection one step down, stopping at the last entry;
    /// returns whether it changed.
    pub fn move_down(&mut self) -> (changed: bool)
        requires
            old(self)@.wf(),
        ensures
            final(self)@ == old(self)@.stepped_down(),
            final(self)@.wf(),
            changed == (final(self)@.selected != old(self)@.selected),
    {
        match self.selected {
            Some(i) => {
                let len = self.entries.len();
                assert(i < len);
                let next = crate::clamp_index(i + 1, len);
                if next != i {
                    self.selected = Some(next);
                    true
                } else {
                    false
                }
            },
            None => false,
        }
    }
}

} // verus!
