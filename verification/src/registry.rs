//! The broker's directory of live sessions.
//!
//! The registry allocates the opaque ids under which sessions are published
//! and keeps the list of live ids that the reaper sweeps. It does not own the
//! sessions themselves; the bus object server does.

use vstd::prelude::*;
use crate::path::{path_chars, lemma_session_paths_distinct};

verus! {

/// Allocates session ids and tracks which ids are live.
pub struct Registry {
    /// The id to give to the next session. Strictly monotonic; ids are never
    /// reissued within one broker process.
    pub next_id: u64,
    /// The ids of the currently published sessions, in allocation order.
    pub live_ids: Vec<u64>,
}

/// Removes the first occurrence of `id` from `s`, if any.
pub open spec fn remove_first(s: Seq<u64>, id: u64) -> Seq<u64>
    decreases s.len(),
{
    if s.len() == 0 {
        s
    } else if s[0] == id {
        s.drop_first()
    } else {
        seq![s[0]] + remove_first(s.drop_first(), id)
    }
}

/// The transition `allocate` makes: `id` is the old `next_id`, the counter
/// advances by one, and `id` is appended to the live list.
pub open spec fn allocate_step(pre: Registry, post: Registry, id: u64) -> bool {
    &&& pre.next_id < u64::MAX
    &&& id == pre.next_id
    &&& post.next_id == pre.next_id + 1
    &&& post.live_ids@ == pre.live_ids@.push(id)
}

impl Registry {
    /// Ids are positive, every live id was allocated in the past, and the
    /// live list is in allocation order (hence free of duplicates).
    pub open spec fn wf(self) -> bool {
        &&& self.next_id >= 1
        &&& forall|i: int|
            0 <= i < self.live_ids@.len() ==> #[trigger] self.live_ids@[i] < self.next_id
        &&& forall|i: int, j: int|
            0 <= i < j < self.live_ids@.len() ==> #[trigger] self.live_ids@[i]
                < #[trigger] self.live_ids@[j]
    }

    /// A fresh registry: no live sessions, ids start at one.
    pub fn new() -> (r: Registry)
        ensures
            r.wf(),
            r.next_id == 1,
            r.live_ids@ =~= Seq::<u64>::empty(),
    {
        Registry { next_id: 1, live_ids: Vec::new() }
    }

    /// Returns a fresh id and appends it to the live list.
    ///
    /// The bound on `next_id` is a machine limit; the caller checks it before
    /// asking for an id.
    pub fn allocate(&mut self) -> (id: u64)
        requires
            old(self).wf(),
            old(self).next_id < u64::MAX,
        ensures
            final(self).wf(),
            allocate_step(*old(self), *final(self), id),
    {
        let id = self.next_id;
        self.live_ids.push(id);
        self.next_id = self.next_id + 1;
        id
    }

    /// A copy of the live list, for the reaper to walk without holding the
    /// registry.
    pub fn snapshot(&self) -> (ids: Vec<u64>)
        ensures
            ids@ == self.live_ids@,
    {
        let mut out: Vec<u64> = Vec::new();
        let mut i: usize = 0;
        while i < self.live_ids.len()
            invariant
                i <= self.live_ids@.len(),
                out@ == self.live_ids@.take(i as int),
            decreases self.live_ids@.len() - i,
        {
            out.push(self.live_ids[i]);
            i = i + 1;
            proof {
                assert(out@ =~= self.live_ids@.take(i as int));
            }
        }
        proof {
            assert(out@ =~= self.live_ids@);
        }
        out
    }

    /// Removes the first occurrence of `id` from the live list. Returns
    /// whether `id` was present.
    pub fn remove(&mut self, id: u64) -> (found: bool)
        requires
            old(self).wf(),
        ensures
            final(self).wf(),
            final(self).next_id == old(self).next_id,
            found == old(self).live_ids@.contains(id),
            final(self).live_ids@ == remove_first(old(self).live_ids@, id),
    {
        let mut i: usize = 0;
        while i < self.live_ids.len()
            invariant
                old(self).wf(),
                i <= old(self).live_ids@.len(),
                self.live_ids@ == old(self).live_ids@,
                self.next_id == old(self).next_id,
                forall|j: int| 0 <= j < i ==> #[trigger] old(self).live_ids@[j] != id,
            decreases old(self).live_ids@.len() - i,
        {
            if self.live_ids[i] == id {
                self.live_ids.remove(i);
                proof {
                    assert(old(self).live_ids@[i as int] == id);
                    lemma_remove_first_at(old(self).live_ids@, id, i as int);
                    lemma_remove_keeps_order(old(self).live_ids@, i as int, old(self).next_id);
                }
                return true;
            }
            i = i + 1;
        }
        proof {
            lemma_remove_first_absent(self.live_ids@, id);
            if self.live_ids@.contains(id) {
                let w = choose|w: int| 0 <= w < self.live_ids@.len() && self.live_ids@[w] == id;
                assert(old(self).live_ids@[w] != id);
            }
        }
        false
    }
}

/// When the first occurrence of `id` in `s` is at index `i`, removing it by
/// index is removing it by value.
proof fn lemma_remove_first_at(s: Seq<u64>, id: u64, i: int)
    requires
        0 <= i < s.len(),
        s[i] == id,
        forall|j: int| 0 <= j < i ==> #[trigger] s[j] != id,
    ensures
        remove_first(s, id) =~= s.remove(i),
    decreases i,
{
    if i == 0 {
        assert(remove_first(s, id) == s.drop_first());
        assert(s.drop_first() =~= s.remove(0));
    } else {
        lemma_remove_first_at(s.drop_first(), id, i - 1);
        assert(remove_first(s, id) == seq![s[0]] + remove_first(s.drop_first(), id));
        assert(seq![s[0]] + s.drop_first().remove(i - 1) =~= s.remove(i));
    }
}

/// Removing from a sequence with no occurrence of `id` changes nothing.
proof fn lemma_remove_first_absent(s: Seq<u64>, id: u64)
    requires
        forall|j: int| 0 <= j < s.len() ==> #[trigger] s[j] != id,
    ensures
        remove_first(s, id) =~= s,
    decreases s.len(),
{
    if s.len() > 0 {
        lemma_remove_first_absent(s.drop_first(), id);
        assert(seq![s[0]] + s.drop_first() =~= s);
    }
}

/// Removing one element keeps a strictly increasing, bounded sequence
/// strictly increasing and bounded.
proof fn lemma_remove_keeps_order(s: Seq<u64>, i: int, bound: u64)
    requires
        0 <= i < s.len(),
        forall|j: int| 0 <= j < s.len() ==> #[trigger] s[j] < bound,
        forall|j: int, k: int| 0 <= j < k < s.len() ==> #[trigger] s[j] < #[trigger] s[k],
    ensures
        forall|j: int| 0 <= j < s.remove(i).len() ==> #[trigger] s.remove(i)[j] < bound,
        forall|j: int, k: int|
            0 <= j < k < s.remove(i).len() ==> #[trigger] s.remove(i)[j] < #[trigger] s.remove(
                i,
            )[k],
{
    let t = s.remove(i);
    assert forall|j: int| 0 <= j < t.len() implies #[trigger] t[j] < bound by {
        if j < i {
            assert(t[j] == s[j]);
        } else {
            assert(t[j] == s[j + 1]);
        }
    }
    assert forall|j: int, k: int| 0 <= j < k < t.len() implies #[trigger] t[j] < #[trigger] t[k] by {
        if k < i {
            assert(t[j] == s[j] && t[k] == s[k]);
        } else if j < i {
            assert(t[j] == s[j] && t[k] == s[k + 1]);
        } else {
            assert(t[j] == s[j + 1] && t[k] == s[k + 1]);
        }
    }
}

/// Law: across any run of allocations, the returned ids strictly increase
/// and the session paths derived from them are pairwise distinct.
///
/// `states` is the chain of registry states and `ids[i]` the id returned by
/// the allocation that took `states[i]` to `states[i + 1]`.
pub proof fn lemma_allocated_ids_distinct(states: Seq<Registry>, ids: Seq<u64>)
    requires
        states.len() == ids.len() + 1,
        forall|i: int|
            0 <= i < ids.len() ==> #[trigger] allocate_step(states[i], states[i + 1], ids[i]),
    ensures
        forall|i: int, j: int| 0 <= i < j < ids.len() ==> #[trigger] ids[i] < #[trigger] ids[j],
        forall|i: int, j: int|
            0 <= i < j < ids.len() ==> path_chars(#[trigger] ids[i] as nat) != path_chars(
                #[trigger] ids[j] as nat,
            ),
{
    assert forall|i: int, j: int| 0 <= i < j < ids.len() implies #[trigger] ids[i]
        < #[trigger] ids[j] by {
        lemma_next_id_advances(states, ids, i + 1, j);
        assert(allocate_step(states[i], states[i + 1], ids[i]));
        assert(allocate_step(states[j], states[j + 1], ids[j]));
    }
    assert forall|i: int, j: int| 0 <= i < j < ids.len() implies path_chars(
        #[trigger] ids[i] as nat,
    ) != path_chars(#[trigger] ids[j] as nat) by {
        lemma_session_paths_distinct(ids[i] as nat, ids[j] as nat);
    }
}

/// The id counter never moves backwards along a chain of allocations.
proof fn lemma_next_id_advances(states: Seq<Registry>, ids: Seq<u64>, i: int, j: int)
    requires
        states.len() == ids.len() + 1,
        forall|k: int|
            0 <= k < ids.len() ==> #[trigger] allocate_step(states[k], states[k + 1], ids[k]),
        0 <= i <= j < states.len(),
    ensures
        states[i].next_id <= states[j].next_id,
    decreases j - i,
{
    if i < j {
        lemma_next_id_advances(states, ids, i + 1, j);
        assert(allocate_step(states[i], states[i + 1], ids[i]));
    }
}

} // verus!
