//! Bounded histories: ball trails, the particle pool, flung bodies, impact
//! markers, craters and recent shot ranges all keep only their newest
//! entries, dropping the oldest once a cap is reached.

use vstd::prelude::*;
use std::collections::VecDeque;

verus! {

/// Contents after a ring-buffer push: when the queue already holds `cap`
/// entries or more, the oldest one is evicted before `item` is appended.
pub open spec fn evict_push<T>(q: Seq<T>, item: T, cap: nat) -> Seq<T> {
    if q.len() >= cap && q.len() > 0 {
        q.drop_first().push(item)
    } else {
        q.push(item)
    }
}

/// Contents after a push-then-trim: `item` is appended, and if the list
/// then exceeds `cap` its oldest entry is removed.
pub open spec fn trim_push<T>(v: Seq<T>, item: T, cap: nat) -> Seq<T> {
    if v.len() + 1 > cap {
        v.push(item).drop_first()
    } else {
        v.push(item)
    }
}

/// The queue left by pushing `items` one by one into an empty ring buffer.
pub open spec fn evict_all<T>(items: Seq<T>, cap: nat) -> Seq<T>
    decreases items.len(),
{
    if items.len() == 0 {
        Seq::empty()
    } else {
        evict_push(evict_all(items.drop_last(), cap), items.last(), cap)
    }
}

/// Ring-buffer record (O(1) eviction): at `cap` entries the oldest is
/// popped before `item` goes in at the back.
pub fn push_evicting<T>(q: &mut VecDeque<T>, item: T, cap: usize)
    ensures
        final(q)@ == evict_push(old(q)@, item, cap as nat),
        final(q)@.last() == item,
        final(q)@.len() == if old(q)@.len() >= cap && old(q)@.len() > 0 {
            old(q)@.len()
        } else {
            old(q)@.len() + 1
        },
        forall|j: int|
            0 <= j < final(q)@.len() - 1 ==> #[trigger] final(q)@[j] == old(q)@[old(q)@.len()
                - final(q)@.len() + 1 + j],
{
    if q.len() >= cap {
        let _ = q.pop_front();
    }
    q.push_back(item);
}

/// Append `item`, then drop the oldest entry if the list is over `cap`.
pub fn push_trimming<T>(v: &mut Vec<T>, item: T, cap: usize)
    ensures
        final(v)@ == trim_push(old(v)@, item, cap as nat),
        final(v)@.len() > 0 ==> final(v)@.last() == item,
        final(v)@.len() == if old(v)@.len() + 1 > cap {
            old(v)@.len()
        } else {
            old(v)@.len() + 1
        },
        forall|j: int|
            0 <= j < final(v)@.len() - 1 ==> #[trigger] final(v)@[j] == old(v)@[old(v)@.len()
                - final(v)@.len() + 1 + j],
{
    v.push(item);
    if v.len() > cap {
        let _ = v.remove(0);
    }
}

/// Bound law: with a positive cap, a history that is within its cap stays
/// within it, the pushed item is the newest entry, and the two push
/// policies agree.
pub proof fn lemma_push_within_cap<T>(q: Seq<T>, item: T, cap: nat)
    requires
        cap >= 1,
        q.len() <= cap,
    ensures
        evict_push(q, item, cap).len() <= cap,
        evict_push(q, item, cap).last() == item,
        evict_push(q, item, cap) == trim_push(q, item, cap),
{
    if q.len() == cap {
        assert(q.push(item).drop_first() =~= q.drop_first().push(item));
    }
}

/// Window law: pushing any sequence of items into an empty ring buffer
/// with a positive cap leaves exactly the newest `cap` items, oldest
/// first.
pub proof fn lemma_keeps_newest<T>(items: Seq<T>, cap: nat)
    requires
        cap >= 1,
    ensures
        evict_all(items, cap) == items.subrange(
            if items.len() > cap {
                items.len() - cap
            } else {
                0
            },
            items.len() as int,
        ),
    decreases items.len(),
{
    if items.len() > 0 {
        let prev = items.drop_last();
        lemma_keeps_newest(prev, cap);
        let n = items.len();
        let s = if prev.len() > cap {
            prev.len() - cap
        } else {
            0
        };
        let before = evict_all(prev, cap);
        assert(before == prev.subrange(s, prev.len() as int));
        if prev.len() >= cap {
            assert(before.drop_first().push(items.last()) =~= items.subrange(n - cap, n as int));
        } else {
            assert(before.push(items.last()) =~= items.subrange(0, n as int));
        }
    }
}

} // verus!
