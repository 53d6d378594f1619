//! A container of tabs: which tabs are open, in what order, which one is
//! active, and in what order tabs were last activated.

use vstd::prelude::*;
use indexmap::IndexSet;
use std::collections::hash_map::RandomState;
use std::marker::PhantomData;
use crate::history::{dedup_keys, lemma_dedup_idempotent, remove_all, without};
use crate::key_set::{
    clear_keys,
    insert_key,
    key_at,
    new_key_set,
    ordered_keys,
    position_of,
    remove_key,
};
use crate::tabs_state::TabsState;

verus! {

/// Names one tab. A container hands out a key when a tab is pushed and never
/// hands out the same key twice.
#[derive(Debug, Clone, Copy, Hash, PartialEq, Eq, Structural)]
pub struct TabKey(u64);

impl View for TabKey {
    type V = u64;

    closed spec fn view(&self) -> u64 {
        self.0
    }
}

impl TabKey {
    /// The key whose number is `value`.
    pub closed spec fn numbered(value: u64) -> TabKey {
        TabKey(value)
    }

    /// The number of `numbered(value)` is `value`.
    pub broadcast proof fn lemma_numbered_view(value: u64)
        ensures
            #[trigger] TabKey::numbered(value)@ == value,
    {
    }
}

/// What a tab bar asks of its container.
#[derive(Debug, Clone)]
pub enum TabMessage<TKM> {
    ActivateTab(TabKey),
    CloseTab(TabKey),
    TabKindMessage(TabKey, TKM),
}

/// What the container reports back after a message.
pub enum TabAction<TKA, TK> {
    TabSelected(TabKey),
    TabClosed(TabKey, TK),
    TabAction(TKA),
}

/// The open tabs of one tab bar.
///
/// Tabs keep the order in which they were pushed. The keys live in an
/// insertion-ordered set, and each tab sits in `kinds` at the position that
/// its key has in that set.
pub struct Tabs<TK, TKM, TKA> {
    next_key_value: u64,
    keys: IndexSet<u64, RandomState>,
    kinds: Vec<TK>,
    history: Vec<TabKey>,
    active: Option<TabKey>,
    _phantom1: PhantomData<TKM>,
    _phantom2: PhantomData<TKA>,
}

impl<TK, TKM, TKA> View for Tabs<TK, TKM, TKA> {
    type V = TabsState<TK>;

    closed spec fn view(&self) -> TabsState<TK> {
        TabsState {
            entries: Seq::new(
                self.kinds@.len(),
                |i: int| (TabKey(ordered_keys(self.keys)[i]), self.kinds@[i]),
            ),
            history: self.history@,
            active: self.active,
            next: self.next_key_value,
        }
    }
}

impl<TK, TKM, TKA> Tabs<TK, TKM, TKA> {
    /// The container is in order: each key has its tab, and the state is
    /// valid. Every function of the container keeps this.
    pub closed spec fn wf(&self) -> bool {
        &&& ordered_keys(self.keys).len() == self.kinds@.len()
        &&& self@.valid()
    }

    /// A container in order has a valid state.
    pub proof fn lemma_wf_valid(&self)
        requires
            self.wf(),
        ensures
            self@.valid(),
    {
    }

    /// Where the key set holds the number of `key` at `position`, the tab
    /// under `key` is the one at `position`.
    proof fn lemma_found(&self, key: TabKey, position: int)
        requires
            self.wf(),
            0 <= position < ordered_keys(self.keys).len(),
            ordered_keys(self.keys)[position] == key.0,
        ensures
            self@.contains(key),
            self@.index_of(key) == position,
            self@.kind(key) == self.kinds@[position],
    {
        let state = self@;
        assert(state.entries[position].0 == key);
        let chosen = state.index_of(key);
        if chosen < position {
            assert(state.entries[chosen].0 != state.entries[position].0);
        } else if position < chosen {
            assert(state.entries[position].0 != state.entries[chosen].0);
        }
    }

    /// Where the key set lacks the number of `key`, no tab is open under `key`.
    proof fn lemma_missing(&self, key: TabKey)
        requires
            self.wf(),
            !ordered_keys(self.keys).contains(key.0),
        ensures
            !self@.contains(key),
    {
        let state = self@;
        if state.contains(key) {
            let i = state.index_of(key);
            assert(ordered_keys(self.keys)[i] == key.0);
        }
    }

    fn next_key(&mut self) -> (key: TabKey)
        requires
            old(self).next_key_value < u64::MAX,
        ensures
            key == TabKey(old(self).next_key_value),
            final(self).next_key_value == old(self).next_key_value + 1,
            final(self).keys == old(self).keys,
            final(self).kinds == old(self).kinds,
            final(self).history == old(self).history,
            final(self).active == old(self).active,
    {
        let key = TabKey(self.next_key_value);
        self.next_key_value += 1;

        key
    }

    /// Opens `tab_kind` as the last tab and returns its key, which no tab
    /// of this container had before. The new tab is not made active.
    pub fn push(&mut self, tab_kind: TK) -> (key: TabKey)
        requires
            old(self).wf(),
            old(self)@.next < u64::MAX,
        ensures
            final(self).wf(),
            key == TabKey::numbered(old(self)@.next),
            !old(self)@.contains(key),
            final(self)@ == old(self)@.pushed(tab_kind),
    {
        let key = self.next_key();
        proof {
            let before = old(self)@;
            assert(!before.contains(key)) by {
                if before.contains(key) {
                    let i = before.index_of(key);
                    assert(before.entries[i].0@ < before.next);
                }
            }
            assert(!ordered_keys(self.keys).contains(key.0)) by {
                if ordered_keys(self.keys).contains(key.0) {
                    let i = choose|i: int|
                        0 <= i < ordered_keys(self.keys).len() && ordered_keys(self.keys)[i]
                            == key.0;
                    assert(before.entries[i].0 == key);
                }
            }
        }
        let _added = insert_key(&mut self.keys, key.0);
        self.kinds.push(tab_kind);
        self.history.push(key);
        proof {
            let before = old(self)@;
            let after = self@;
            assert(after.entries =~= before.pushed(tab_kind).entries) by {
                assert forall|i: int| 0 <= i < after.entries.len() implies after.entries[i]
                    == before.pushed(tab_kind).entries[i] by {
                    if i < before.entries.len() {
                        assert(after.entries[i] == before.entries[i]);
                    }
                }
            }
            assert(after.valid()) by {
                assert forall|i: int| 0 <= i < after.entries.len() implies (
                #[trigger] after.entries[i]).0@ < after.next by {
                    if i < before.entries.len() {
                        assert(before.entries[i].0@ < before.next);
                    }
                }
                assert forall|i: int, j: int| 0 <= i < j < after.entries.len() implies (
                #[trigger] after.entries[i]).0 != (#[trigger] after.entries[j]).0 by {
                    if j < before.entries.len() {
                        assert(before.entries[i].0 != before.entries[j].0);
                    } else {
                        assert(before.entries[i].0@ < before.next);
                    }
                }
            }
        }

        key
    }

    /// Puts `tab_kind` in place of the tab that is open under `key`. Does
    /// nothing where no tab is open under `key`.
    pub fn replace(&mut self, key: TabKey, tab_kind: TK)
        requires
            old(self).wf(),
        ensures
            final(self).wf(),
            final(self)@ == old(self)@.replaced(key, tab_kind),
    {
        if let Some(position) = position_of(&self.keys, key.0) {
            proof {
                self.lemma_found(key, position as int);
            }
            self.kinds[position] = tab_kind;
            proof {
                let before = old(self)@;
                assert(self@.entries =~= before.replaced(key, tab_kind).entries);
                assert(self@.valid()) by {
                    assert forall|i: int| 0 <= i < self@.entries.len() implies (
                    #[trigger] self@.entries[i]).0 == before.entries[i].0 by {}
                }
            }
        } else {
            proof {
                self.lemma_missing(key);
            }
        }
    }

    /// Makes `key` the active tab and the latest key of the history.
    pub fn activate(&mut self, key: TabKey)
        requires
            old(self).wf(),
        ensures
            final(self).wf(),
            final(self)@ == old(self)@.activated(key),
    {
        self.active = Some(key);
        self.history.push(key);
        dedup_keys(&mut self.history);
        proof {
            assert(self@.entries =~= old(self)@.entries);
        }
    }

    /// The tab that is open under `key`, if there is one.
    pub fn get(&self, key: TabKey) -> (tab: Option<&TK>)
        requires
            self.wf(),
        ensures
            match tab {
                Some(tab) => self@.contains(key) && *tab == self@.kind(key),
                None => !self@.contains(key),
            },
    {
        match position_of(&self.keys, key.0) {
            Some(position) => {
                proof {
                    self.lemma_found(key, position as int);
                }
                Some(&self.kinds[position])
            },
            None => {
                proof {
                    self.lemma_missing(key);
                }
                None
            },
        }
    }

    /// The active tab with its key, if a tab is active.
    pub fn active(&self) -> (tab: Option<(TabKey, &TK)>)
        requires
            self.wf(),
            self@.active matches Some(key) ==> self@.contains(key),
        ensures
            match self@.active {
                Some(key) => tab matches Some((found, kind)) && found == key && *kind
                    == self@.kind(key),
                None => tab is None,
            },
    {
        match self.active {
            Some(key) => {
                let kind = self.get(key).unwrap();
                Some((key, kind))
            },
            None => None,
        }
    }

    /// Closes every tab and returns the closed tabs with their keys, first
    /// pushed first. No tab is active afterwards and the history is empty.
    pub fn close_all(&mut self) -> (closed_tabs: Vec<(TabKey, TK)>)
        requires
            old(self).wf(),
        ensures
            final(self).wf(),
            closed_tabs@ == old(self)@.entries,
            final(self)@ == old(self)@.emptied(),
    {
        let mut kinds: Vec<TK> = Vec::new();
        std::mem::swap(&mut kinds, &mut self.kinds);
        let ghost entries = old(self)@.entries;
        let mut closed_tabs: Vec<(TabKey, TK)> = Vec::new();
        for kind in remaining: kinds
            invariant
                ordered_keys(self.keys) == ordered_keys(old(self).keys),
                remaining.seq() == old(self).kinds@,
                entries == old(self)@.entries,
                entries.len() == old(self).kinds@.len(),
                ordered_keys(old(self).keys).len() == old(self).kinds@.len(),
                closed_tabs@ == entries.take(remaining.index() as int),
        {
            let key = key_at(&self.keys, closed_tabs.len()).unwrap();
            closed_tabs.push((TabKey(key), kind));
            proof {
                let done = remaining.index() as int;
                assert(entries.take(done + 1) =~= entries.take(done).push(entries[done]));
            }
        }
        proof {
            assert(entries.take(entries.len() as int) =~= entries);
        }
        clear_keys(&mut self.keys);
        self.active = None;
        self.history.clear();
        proof {
            assert(self@.entries =~= old(self)@.emptied().entries);
        }
        closed_tabs
    }

    /// The open tabs with their keys, first pushed first.
    pub fn iter(&self) -> (tabs: Vec<(TabKey, &TK)>)
        requires
            self.wf(),
        ensures
            tabs@.len() == self@.entries.len(),
            forall|i: int|
                0 <= i < tabs@.len() ==> (#[trigger] tabs@[i]).0 == self@.entries[i].0
                    && *tabs@[i].1 == self@.entries[i].1,
    {
        let mut tabs: Vec<(TabKey, &TK)> = Vec::new();
        let mut position: usize = 0;
        while position < self.kinds.len()
            invariant
                self.wf(),
                position <= self.kinds@.len(),
                tabs@.len() == position,
                forall|i: int|
                    0 <= i < position ==> (#[trigger] tabs@[i]).0 == self@.entries[i].0
                        && *tabs@[i].1 == self@.entries[i].1,
            decreases self.kinds@.len() - position,
        {
            let key = key_at(&self.keys, position).unwrap();
            tabs.push((TabKey(key), &self.kinds[position]));
            position += 1;
        }
        tabs
    }

    /// Closes the tab under `key` and returns it. The latest key left in the
    /// history becomes active.
    fn close(&mut self, key: TabKey) -> (closed_tab: TK)
        requires
            old(self).wf(),
            old(self)@.contains(key),
        ensures
            final(self).wf(),
            closed_tab == old(self)@.kind(key),
            final(self)@ == old(self)@.closed(key),
    {
        // remove the key from the history, so we don't try and switch to it again.
        remove_all(&mut self.history, key);
        dedup_keys(&mut self.history);
        let ghost history = self.history@;
        proof {
            assert(history == old(self)@.closed(key).history);
            lemma_dedup_idempotent(without(old(self).history@, key));
        }

        if let Some(recent_key) = self.history.pop() {
            proof {
                assert(self.history@.push(recent_key) =~= history);
            }
            self.activate(recent_key);
        } else {
            self.active = None;
        }
        assert(self.history@ == history);
        assert(self@.entries =~= old(self)@.entries);

        let ghost kept = *self;
        proof {
            if !ordered_keys(self.keys).contains(key.0) {
                self.lemma_missing(key);
            }
        }
        let position = remove_key(&mut self.keys, key.0).unwrap();
        proof {
            kept.lemma_found(key, position as int);
        }
        let closed_tab = self.kinds.remove(position);
        proof {
            let before = old(self)@;
            let after = self@;
            assert(after.entries =~= before.entries.remove(position as int));
            assert(after.valid()) by {
                assert forall|i: int| 0 <= i < after.entries.len() implies (
                #[trigger] after.entries[i]).0@ < after.next by {
                    if i < position {
                        assert(before.entries[i].0@ < before.next);
                    } else {
                        assert(before.entries[i + 1].0@ < before.next);
                    }
                }
                assert forall|i: int, j: int| 0 <= i < j < after.entries.len() implies (
                #[trigger] after.entries[i]).0 != (#[trigger] after.entries[j]).0 by {
                    let from_i = if i < position { i } else { i + 1 };
                    let from_j = if j < position { j } else { j + 1 };
                    assert(before.entries[from_i].0 != before.entries[from_j].0);
                }
            }
        }
        closed_tab
    }

    /// The key of the active tab, where one is active.
    pub fn active_key(&self) -> (key: Option<TabKey>)
        ensures
            key == self@.active,
    {
        self.active
    }

    /// Whether a key is left for another tab: a container hands out at most
    /// `u64::MAX` keys.
    pub fn has_key_left(&self) -> (left: bool)
        ensures
            left == (self@.next < u64::MAX),
    {
        self.next_key_value < u64::MAX
    }

    /// Whether `key` is the active tab.
    pub fn is_active(&self, key: TabKey) -> (active: bool)
        ensures
            active == (self@.active == Some(key)),
    {
        match self.active {
            Some(other_key) => key == other_key,
            None => false,
        }
    }
}

impl<TK, TKM, TKA> Default for Tabs<TK, TKM, TKA> {
    fn default() -> (tabs: Self)
        ensures
            tabs.wf(),
            tabs@ == TabsState::<TK>::initial(),
    {
        let tabs = Self {
            next_key_value: 0,
            keys: new_key_set(),
            kinds: Vec::new(),
            history: Vec::new(),
            active: None,
            _phantom1: PhantomData,
            _phantom2: PhantomData,
        };
        assert(tabs@.entries =~= Seq::empty());
        assert(tabs@.history =~= Seq::empty());
        tabs
    }
}

impl<TK, TKM: Clone, TKA> Tabs<TK, TKM, TKA> {
    /// Carries out one message of the tab bar.
    ///
    /// A message for a tab is handed to `update_fn` together with the tab,
    /// which `update_fn` may change in place; what it returns is passed on.
    /// Selecting a tab makes it active and leaves the history alone. Closing a
    /// tab hands the closed tab back.
    pub fn update<UF>(&mut self, message: TabMessage<TKM>, mut update_fn: UF) -> (action: TabAction<
        TKA,
        TK,
    >) where UF: FnMut(TabKey, &mut TK, TKM) -> TKA
        requires
            old(self).wf(),
            match message {
                TabMessage::TabKindMessage(key, tab_message) => {
                    &&& old(self)@.contains(key)
                    &&& forall|tab: &mut TK|
                        *tab == old(self)@.kind(key) ==> #[trigger] update_fn.requires(
                            (key, tab, tab_message),
                        )
                },
                TabMessage::ActivateTab(_) => true,
                TabMessage::CloseTab(key) => old(self)@.contains(key),
            },
        ensures
            final(self).wf(),
            message matches TabMessage::TabKindMessage(key, tab_message) ==> exists|
                tab: &mut TK,
                tab_action: TKA,
            |
                {
                    &&& #[trigger] update_fn.ensures((key, tab, tab_message), tab_action)
                    &&& *tab == old(self)@.kind(key)
                    &&& final(self)@ == old(self)@.replaced(key, *final(tab))
                    &&& action == TabAction::<TKA, TK>::TabAction(tab_action)
                },
            message matches TabMessage::ActivateTab(key) ==> {
                &&& final(self)@ == old(self)@.selected(key)
                &&& action == TabAction::<TKA, TK>::TabSelected(key)
            },
            message matches TabMessage::CloseTab(key) ==> {
                &&& final(self)@ == old(self)@.closed(key)
                &&& action == TabAction::<TKA, TK>::TabClosed(key, old(self)@.kind(key))
            },
    {
        match message {
            TabMessage::TabKindMessage(key, message) => {
                proof {
                    if !ordered_keys(self.keys).contains(key.0) {
                        self.lemma_missing(key);
                    }
                }
                let position = position_of(&self.keys, key.0).unwrap();
                proof {
                    self.lemma_found(key, position as int);
                }
                let action = update_fn(key, &mut self.kinds[position], message);
                proof {
                    let before = old(self)@;
                    let kind = self.kinds@[position as int];
                    assert(self@.entries =~= before.replaced(key, kind).entries);
                    assert(self@.valid()) by {
                        assert forall|i: int| 0 <= i < self@.entries.len() implies (
                        #[trigger] self@.entries[i]).0 == before.entries[i].0 by {}
                    }
                    assert(exists|tab: &mut TK|
                        {
                            &&& #[trigger] update_fn.ensures((key, tab, message), action)
                            &&& *tab == before.kind(key)
                            &&& self@ == before.replaced(key, *final(tab))
                        });
                }

                TabAction::TabAction(action)
            },
            TabMessage::ActivateTab(key) => {
                self.active = Some(key);
                proof {
                    assert(self@.entries =~= old(self)@.entries);
                }
                TabAction::TabSelected(key)
            },
            TabMessage::CloseTab(key) => {
                let closed_tab = self.close(key);
                TabAction::TabClosed(key, closed_tab)
            },
        }
    }
}

} // verus!
