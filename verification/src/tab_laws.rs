//! What holds of a tab container's state after each step.
//!
//! Each law speaks of [`TabsState`], the state that the contracts of
//! [`crate::tabs::Tabs`] speak of, so it holds of the container after the
//! function of the same name.

use vstd::prelude::*;
use crate::history::{
    dedup,
    lemma_dedup_last,
    lemma_dedup_members,
    lemma_dedup_no_repeats,
    lemma_without_members,
    no_repeats,
    without,
};
use crate::tabs::TabKey;
use crate::tabs_state::TabsState;

verus! {

/// Pushing keeps the state valid and coherent. The new tab gets a key that
/// was not in use, and every other tab stays open under its key.
pub proof fn lemma_pushed<TK>(state: TabsState<TK>, tab: TK)
    requires
        state.valid(),
        state.next < u64::MAX,
    ensures
        !state.contains(TabKey::numbered(state.next)),
        state.pushed(tab).valid(),
        state.pushed(tab).contains(TabKey::numbered(state.next)),
        state.pushed(tab).kind(TabKey::numbered(state.next)) == tab,
        forall|other: TabKey| #[trigger]
            state.contains(other) ==> state.pushed(tab).contains(other) && state.pushed(
                tab,
            ).kind(other) == state.kind(other),
        state.coherent() ==> state.pushed(tab).coherent(),
{
    let key = TabKey::numbered(state.next);
    let after = state.pushed(tab);
    TabKey::lemma_numbered_view(state.next);
    assert(!state.contains(key)) by {
        if state.contains(key) {
            assert(state.entries[state.index_of(key)].0@ < state.next);
        }
    }
    assert(after.valid()) by {
        assert forall|i: int| 0 <= i < after.entries.len() implies (#[trigger] after.entries[i]).0@
            < after.next by {
            if i < state.entries.len() {
                assert(state.entries[i].0@ < state.next);
            }
        }
        assert forall|i: int, j: int| 0 <= i < j < after.entries.len() implies (
        #[trigger] after.entries[i]).0 != (#[trigger] after.entries[j]).0 by {
            if j < state.entries.len() {
                assert(state.entries[i].0 != state.entries[j].0);
            } else {
                assert(state.entries[i].0@ < state.next);
            }
        }
    }
    after.lemma_entry(state.entries.len() as int);
    assert forall|other: TabKey| #[trigger] state.contains(other) implies after.contains(other)
        && after.kind(other) == state.kind(other) by {
        let i = state.index_of(other);
        assert(after.entries[i] == state.entries[i]);
        after.lemma_entry(i);
    }
    if state.coherent() {
        assert forall|i: int| 0 <= i < after.history.len() implies after.contains(
            #[trigger] after.history[i],
        ) by {
            if i < state.history.len() {
                assert(state.contains(state.history[i]));
            }
        }
    }
}

/// Replacing keeps the state valid and coherent and the same keys in use.
/// The tab under `key` is the new one, and every other tab stays.
pub proof fn lemma_replaced<TK>(state: TabsState<TK>, key: TabKey, tab: TK)
    requires
        state.valid(),
    ensures
        state.replaced(key, tab).valid(),
        state.contains(key) ==> state.replaced(key, tab).kind(key) == tab,
        forall|other: TabKey| #[trigger]
            state.replaced(key, tab).contains(other) <==> state.contains(other),
        forall|other: TabKey|
            other != key && state.contains(other) ==> #[trigger] state.replaced(key, tab).kind(
                other,
            ) == state.kind(other),
        state.coherent() ==> state.replaced(key, tab).coherent(),
{
    let after = state.replaced(key, tab);
    if state.contains(key) {
        let position = state.index_of(key);
        assert forall|i: int| 0 <= i < after.entries.len() implies (#[trigger] after.entries[i]).0
            == state.entries[i].0 by {}
        assert(after.valid());
        after.lemma_entry(position);
        assert forall|other: TabKey| #[trigger] after.contains(other) <==> state.contains(
            other,
        ) by {
            if after.contains(other) {
                assert(state.entries[after.index_of(other)].0 == other);
            }
            if state.contains(other) {
                assert(after.entries[state.index_of(other)].0 == other);
            }
        }
        assert forall|other: TabKey| other != key && state.contains(other) implies #[trigger]
            after.kind(other) == state.kind(other) by {
            let i = state.index_of(other);
            assert(after.entries[i] == state.entries[i]);
            after.lemma_entry(i);
        }
        if state.coherent() {
            assert forall|i: int| 0 <= i < after.history.len() implies after.contains(
                #[trigger] after.history[i],
            ) by {
                assert(state.contains(state.history[i]));
            }
        }
    }
}

/// Selecting makes `key` active and changes nothing else. Selecting an open
/// tab keeps the state coherent.
pub proof fn lemma_selected<TK>(state: TabsState<TK>, key: TabKey)
    requires
        state.valid(),
    ensures
        state.selected(key).valid(),
        state.selected(key).active == Some(key),
        state.selected(key).entries == state.entries,
        state.selected(key).history == state.history,
        state.coherent() && state.contains(key) ==> state.selected(key).coherent(),
{
    let after = state.selected(key);
    if state.coherent() && state.contains(key) {
        assert(after.contains(key)) by {
            assert(after.entries[state.index_of(key)].0 == key);
        }
        assert forall|i: int| 0 <= i < after.history.len() implies after.contains(
            #[trigger] after.history[i],
        ) by {
            let other = state.history[i];
            assert(state.contains(other));
            assert(after.entries[state.index_of(other)].0 == other);
        }
    }
}

/// Activating makes `key` active and the latest key of the history, in which
/// no key follows itself. The tabs stay. Activating an open tab keeps the
/// state coherent.
pub proof fn lemma_activated<TK>(state: TabsState<TK>, key: TabKey)
    requires
        state.valid(),
    ensures
        state.activated(key).valid(),
        state.activated(key).active == Some(key),
        state.activated(key).entries == state.entries,
        state.activated(key).history.len() > 0,
        state.activated(key).history.last() == key,
        no_repeats(state.activated(key).history),
        state.coherent() && state.contains(key) ==> state.activated(key).coherent(),
{
    let after = state.activated(key);
    let longer = state.history.push(key);
    lemma_dedup_last(longer);
    lemma_dedup_no_repeats(longer);
    lemma_dedup_members(longer);
    if state.coherent() && state.contains(key) {
        assert(after.contains(key)) by {
            assert(after.entries[state.index_of(key)].0 == key);
        }
        assert forall|i: int| 0 <= i < after.history.len() implies after.contains(
            #[trigger] after.history[i],
        ) by {
            let other = after.history[i];
            assert(dedup(longer).contains(other));
            assert(longer.contains(other));
            let j = choose|j: int| 0 <= j < longer.len() && longer[j] == other;
            if j < state.history.len() {
                assert(state.contains(state.history[j]));
            }
            assert(state.contains(other));
            assert(after.entries[state.index_of(other)].0 == other);
        }
    }
}

/// Closing takes the tab under `key` away and leaves every other tab open
/// under its key. `key` is neither active nor in the history afterwards;
/// the latest key left in the history is active. The state stays valid, and
/// coherent where it was.
pub proof fn lemma_closed<TK>(state: TabsState<TK>, key: TabKey)
    requires
        state.valid(),
        state.contains(key),
    ensures
        state.closed(key).valid(),
        state.closed(key).entries.len() == state.entries.len() - 1,
        !state.closed(key).contains(key),
        !state.closed(key).history.contains(key),
        state.closed(key).active != Some(key),
        no_repeats(state.closed(key).history),
        forall|other: TabKey|
            other != key ==> (#[trigger] state.closed(key).contains(other) <==> state.contains(
                other,
            )),
        forall|other: TabKey|
            other != key && state.contains(other) ==> #[trigger] state.closed(key).kind(other)
                == state.kind(other),
        state.coherent() ==> state.closed(key).coherent(),
{
    let after = state.closed(key);
    let position = state.index_of(key);
    let kept = without(state.history, key);
    lemma_without_members(state.history, key);
    lemma_dedup_members(kept);
    lemma_dedup_last(kept);
    lemma_dedup_no_repeats(kept);
    state.lemma_entry(position);

    assert(after.valid()) by {
        assert forall|i: int| 0 <= i < after.entries.len() implies (#[trigger] after.entries[i]).0@
            < after.next by {
            if i < position {
                assert(state.entries[i].0@ < state.next);
            } else {
                assert(state.entries[i + 1].0@ < state.next);
            }
        }
        assert forall|i: int, j: int| 0 <= i < j < after.entries.len() implies (
        #[trigger] after.entries[i]).0 != (#[trigger] after.entries[j]).0 by {
            let from_i = if i < position { i } else { i + 1 };
            let from_j = if j < position { j } else { j + 1 };
            assert(state.entries[from_i].0 != state.entries[from_j].0);
        }
    }
    assert(!after.contains(key)) by {
        if after.contains(key) {
            let j = after.index_of(key);
            let from = if j < position { j } else { j + 1 };
            assert(state.entries[from].0 == key);
            state.lemma_entry(from);
        }
    }
    assert forall|other: TabKey| other != key implies (#[trigger] after.contains(other)
        <==> state.contains(other)) by {
        if after.contains(other) {
            let j = after.index_of(other);
            let from = if j < position { j } else { j + 1 };
            assert(state.entries[from].0 == other);
        }
        if state.contains(other) {
            let i = state.index_of(other);
            let to = if i < position { i } else { i - 1 };
            assert(after.entries[to].0 == other);
        }
    }
    assert forall|other: TabKey| other != key && state.contains(other) implies #[trigger]
        after.kind(other) == state.kind(other) by {
        let i = state.index_of(other);
        let to = if i < position { i } else { i - 1 };
        assert(after.entries[to] == state.entries[i]);
        after.lemma_entry(to);
    }
    assert(!after.history.contains(key)) by {
        if after.history.contains(key) {
            assert(dedup(kept).contains(key));
            assert(kept.contains(key));
        }
    }
    if after.history.len() > 0 {
        assert(after.history.contains(after.history.last())) by {
            assert(after.history[after.history.len() - 1] == after.history.last());
        }
    }
    if state.coherent() {
        assert forall|i: int| 0 <= i < after.history.len() implies after.contains(
            #[trigger] after.history[i],
        ) by {
            let other = after.history[i];
            assert(dedup(kept).contains(other));
            assert(kept.contains(other));
            assert(state.history.contains(other) && other != key);
            let j = choose|j: int| 0 <= j < state.history.len() && state.history[j] == other;
            assert(state.contains(state.history[j]));
            assert(after.contains(other));
        }
    }
}

/// Closing all tabs leaves a valid, coherent state with no tab open.
pub proof fn lemma_emptied<TK>(state: TabsState<TK>)
    requires
        state.valid(),
    ensures
        state.emptied().valid(),
        state.emptied().coherent(),
        forall|key: TabKey| !#[trigger] state.emptied().contains(key),
{
}

} // verus!
