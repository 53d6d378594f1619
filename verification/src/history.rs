//! The activation history: a list of tab keys, most recently activated last.

use vstd::prelude::*;
use crate::tabs::TabKey;

verus! {

/// `keys` with every occurrence of `key` taken out, the rest in their order.
pub open spec fn without(keys: Seq<TabKey>, key: TabKey) -> Seq<TabKey>
    decreases keys.len(),
{
    if keys.len() == 0 {
        keys
    } else if keys.last() == key {
        without(keys.drop_last(), key)
    } else {
        without(keys.drop_last(), key).push(keys.last())
    }
}

/// No key of `keys` is followed directly by an equal key.
pub open spec fn no_repeats(keys: Seq<TabKey>) -> bool {
    forall|i: int| 0 < i < keys.len() ==> keys[i - 1] != #[trigger] keys[i]
}

/// `keys` with each run of equal neighbours shortened to one key.
pub open spec fn dedup(keys: Seq<TabKey>) -> Seq<TabKey>
    decreases keys.len(),
{
    if keys.len() <= 1 {
        keys
    } else if keys[keys.len() - 2] == keys.last() {
        dedup(keys.drop_last())
    } else {
        dedup(keys.drop_last()).push(keys.last())
    }
}

/// Shortening runs keeps the last key, and leaves an empty list empty.
pub proof fn lemma_dedup_last(keys: Seq<TabKey>)
    ensures
        keys.len() == 0 <==> dedup(keys).len() == 0,
        dedup(keys).len() <= keys.len(),
        keys.len() > 0 ==> dedup(keys).last() == keys.last(),
    decreases keys.len(),
{
    if keys.len() > 1 {
        lemma_dedup_last(keys.drop_last());
    }
}

/// After shortening, no key is followed directly by an equal key.
pub proof fn lemma_dedup_no_repeats(keys: Seq<TabKey>)
    ensures
        no_repeats(dedup(keys)),
    decreases keys.len(),
{
    if keys.len() > 1 {
        lemma_dedup_no_repeats(keys.drop_last());
        lemma_dedup_last(keys.drop_last());
    }
}

/// A list without equal neighbours is left as it is.
pub proof fn lemma_dedup_fixed(keys: Seq<TabKey>)
    requires
        no_repeats(keys),
    ensures
        dedup(keys) == keys,
    decreases keys.len(),
{
    if keys.len() > 1 {
        let front = keys.drop_last();
        assert(no_repeats(front)) by {
            assert forall|i: int| 0 < i < front.len() implies front[i - 1] != #[trigger] front[i] by {
                assert(keys[i - 1] != keys[i]);
            }
        }
        lemma_dedup_fixed(front);
        assert(keys[keys.len() - 2] != keys[keys.len() - 1]);
        assert(front.push(keys.last()) =~= keys);
    }
}

/// Shortening twice is shortening once.
pub proof fn lemma_dedup_idempotent(keys: Seq<TabKey>)
    ensures
        dedup(dedup(keys)) == dedup(keys),
{
    lemma_dedup_no_repeats(keys);
    lemma_dedup_fixed(dedup(keys));
}

/// Every key left by `without` was there before and is not `key`, and every
/// other key that was there is left.
pub proof fn lemma_without_members(keys: Seq<TabKey>, key: TabKey)
    ensures
        without(keys, key).len() <= keys.len(),
        forall|other: TabKey| #[trigger]
            without(keys, key).contains(other) <==> keys.contains(other) && other != key,
    decreases keys.len(),
{
    if keys.len() > 0 {
        let front = keys.drop_last();
        let last = keys.last();
        lemma_without_members(front, key);
        assert forall|other: TabKey| #[trigger]
            without(keys, key).contains(other) <==> keys.contains(other) && other != key by {
            if without(keys, key).contains(other) {
                let j = choose|j: int| 0 <= j < without(keys, key).len() && without(keys, key)[j] == other;
                if j < without(front, key).len() {
                    assert(without(front, key)[j] == other);
                    assert(without(front, key).contains(other));
                    let i = choose|i: int| 0 <= i < front.len() && front[i] == other;
                    assert(keys[i] == other);
                } else {
                    assert(keys[keys.len() - 1] == other);
                }
            }
            if keys.contains(other) && other != key {
                let i = choose|i: int| 0 <= i < keys.len() && keys[i] == other;
                if i < front.len() {
                    assert(front[i] == other);
                    assert(front.contains(other));
                    assert(without(front, key).contains(other));
                    let j = choose|j: int| 0 <= j < without(front, key).len() && without(front, key)[j] == other;
                    assert(without(keys, key)[j] == other);
                } else {
                    assert(without(keys, key)[without(keys, key).len() - 1] == other);
                }
            }
        }
    }
}

/// Every key left by `dedup` was there before, and the other way round.
pub proof fn lemma_dedup_members(keys: Seq<TabKey>)
    ensures
        forall|other: TabKey| #[trigger] dedup(keys).contains(other) <==> keys.contains(other),
    decreases keys.len(),
{
    if keys.len() > 1 {
        let front = keys.drop_last();
        lemma_dedup_members(front);
        assert forall|other: TabKey| #[trigger]
            dedup(keys).contains(other) <==> keys.contains(other) by {
            if dedup(keys).contains(other) {
                if keys[keys.len() - 2] == keys.last() {
                    assert(dedup(front).contains(other));
                    let i = choose|i: int| 0 <= i < front.len() && front[i] == other;
                    assert(keys[i] == other);
                } else {
                    let j = choose|j: int| 0 <= j < dedup(keys).len() && dedup(keys)[j] == other;
                    if j < dedup(front).len() {
                        assert(dedup(front)[j] == other);
                        assert(dedup(front).contains(other));
                        let i = choose|i: int| 0 <= i < front.len() && front[i] == other;
                        assert(keys[i] == other);
                    } else {
                        assert(keys[keys.len() - 1] == other);
                    }
                }
            }
            if keys.contains(other) {
                let i = choose|i: int| 0 <= i < keys.len() && keys[i] == other;
                if i < front.len() {
                    assert(front[i] == other);
                    assert(front.contains(other));
                    assert(dedup(front).contains(other));
                    let j = choose|j: int| 0 <= j < dedup(front).len() && dedup(front)[j] == other;
                    if keys[keys.len() - 2] != keys.last() {
                        assert(dedup(keys)[j] == other);
                    }
                } else {
                    if keys[keys.len() - 2] == keys.last() {
                        assert(front[front.len() - 1] == other);
                        assert(front.contains(other));
                        assert(dedup(front).contains(other));
                    } else {
                        assert(dedup(keys)[dedup(keys).len() - 1] == other);
                    }
                }
            }
        }
    }
}

/// Takes every occurrence of `key` out of `history`.
pub(crate) fn remove_all(history: &mut Vec<TabKey>, key: TabKey)
    ensures
        final(history)@ == without(old(history)@, key),
{
    let mut kept: Vec<TabKey> = Vec::new();
    let mut i: usize = 0;
    while i < history.len()
        invariant
            i <= history.len(),
            *history == *old(history),
            kept@ == without(history@.take(i as int), key),
        decreases history.len() - i,
    {
        let other = history[i];
        proof {
            assert(history@.take(i + 1).drop_last() =~= history@.take(i as int));
        }
        if other != key {
            kept.push(other);
        }
        i += 1;
    }
    proof {
        assert(history@.take(i as int) =~= history@);
    }
    *history = kept;
}

/// Shortens each run of equal neighbours in `history` to one key.
pub(crate) fn dedup_keys(history: &mut Vec<TabKey>)
    ensures
        final(history)@ == dedup(old(history)@),
{
    let mut kept: Vec<TabKey> = Vec::new();
    let mut i: usize = 0;
    while i < history.len()
        invariant
            i <= history.len(),
            *history == *old(history),
            kept@ == dedup(history@.take(i as int)),
        decreases history.len() - i,
    {
        let other = history[i];
        proof {
            assert(history@.take(i + 1).drop_last() =~= history@.take(i as int));
            lemma_dedup_last(history@.take(i as int));
        }
        if i == 0 || history[i - 1] != other {
            kept.push(other);
        }
        i += 1;
    }
    proof {
        assert(history@.take(i as int) =~= history@);
    }
    *history = kept;
}

} // verus!
