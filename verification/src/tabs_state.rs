//! The state of a tab container as its contracts speak of it, and what each
//! step makes of that state.

use vstd::prelude::*;
use crate::history::{dedup, without};
use crate::tabs::TabKey;

verus! {

/// The state of a tab container, as contracts speak of it.
pub struct TabsState<TK> {
    /// The open tabs under their keys, first pushed first.
    pub entries: Seq<(TabKey, TK)>,
    /// Keys in the order in which they were pushed or activated, the latest last.
    pub history: Seq<TabKey>,
    /// The key of the active tab, where one is active.
    pub active: Option<TabKey>,
    /// The number that the next pushed tab gets as its key.
    pub next: u64,
}

impl<TK> TabsState<TK> {
    /// A container that has not seen a tab yet.
    pub open spec fn initial() -> Self {
        TabsState { entries: Seq::empty(), history: Seq::empty(), active: None, next: 0 }
    }

    /// A tab is open under `key`.
    pub open spec fn contains(self, key: TabKey) -> bool {
        exists|i: int| 0 <= i < self.entries.len() && (#[trigger] self.entries[i]).0 == key
    }

    /// The position of the tab that is open under `key`.
    pub open spec fn index_of(self, key: TabKey) -> int {
        choose|i: int| 0 <= i < self.entries.len() && (#[trigger] self.entries[i]).0 == key
    }

    /// The tab that is open under `key`.
    pub open spec fn kind(self, key: TabKey) -> TK {
        self.entries[self.index_of(key)].1
    }

    /// No key is in use twice, and every key in use was handed out before:
    /// its number is below `next`.
    pub open spec fn valid(self) -> bool {
        &&& forall|i: int, j: int|
            0 <= i < j < self.entries.len() ==> (#[trigger] self.entries[i]).0 != (
            #[trigger] self.entries[j]).0
        &&& forall|i: int| 0 <= i < self.entries.len() ==> (#[trigger] self.entries[i]).0@ < self.next
    }

    /// The active key and every key of the history name an open tab.
    pub open spec fn coherent(self) -> bool {
        &&& self.active matches Some(key) ==> self.contains(key)
        &&& forall|i: int| 0 <= i < self.history.len() ==> self.contains(#[trigger] self.history[i])
    }

    /// In a valid state the tab at position `i` is the tab under its key.
    pub proof fn lemma_entry(self, i: int)
        requires
            self.valid(),
            0 <= i < self.entries.len(),
        ensures
            self.contains(self.entries[i].0),
            self.index_of(self.entries[i].0) == i,
            self.kind(self.entries[i].0) == self.entries[i].1,
    {
        let key = self.entries[i].0;
        let chosen = self.index_of(key);
        if chosen < i {
            assert(self.entries[chosen].0 != self.entries[i].0);
        } else if i < chosen {
            assert(self.entries[i].0 != self.entries[chosen].0);
        }
    }

    /// After `tab` was pushed: it is the last tab, under the next key, which
    /// is also the latest of the history. The active tab stays.
    pub open spec fn pushed(self, tab: TK) -> Self {
        TabsState {
            entries: self.entries.push((TabKey::numbered(self.next), tab)),
            history: self.history.push(TabKey::numbered(self.next)),
            active: self.active,
            next: (self.next + 1) as u64,
        }
    }

    /// After the tab under `key` was replaced by `tab`: the tab keeps key and
    /// position. Nothing changes where no tab is open under `key`.
    pub open spec fn replaced(self, key: TabKey, tab: TK) -> Self {
        if self.contains(key) {
            TabsState { entries: self.entries.update(self.index_of(key), (key, tab)), ..self }
        } else {
            self
        }
    }

    /// After `key` was selected: it is active, and nothing else changes.
    pub open spec fn selected(self, key: TabKey) -> Self {
        TabsState { active: Some(key), ..self }
    }

    /// After `key` was activated: it is active and the latest of the history,
    /// in which no key is followed by itself.
    pub open spec fn activated(self, key: TabKey) -> Self {
        TabsState { active: Some(key), history: dedup(self.history.push(key)), ..self }
    }

    /// After the tab under `key` was closed: the tab is gone, `key` is gone
    /// from the history, and the latest key left in the history is active;
    /// no tab is active where the history is left empty.
    pub open spec fn closed(self, key: TabKey) -> Self {
        let history = dedup(without(self.history, key));
        TabsState {
            entries: self.entries.remove(self.index_of(key)),
            history,
            active: if history.len() > 0 {
                Some(history.last())
            } else {
                None
            },
            next: self.next,
        }
    }

    /// After all tabs were closed: no tab, no history, no active tab. Keys
    /// that were handed out stay used.
    pub open spec fn emptied(self) -> Self {
        TabsState { entries: Seq::empty(), history: Seq::empty(), active: None, next: self.next }
    }
}

} // verus!
