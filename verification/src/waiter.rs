//! The waiter queue: the per-object set of registered wait entries with
//! their interest masks, and the edge-triggered notification fan-out.
//!
//! Entries are keyed by an opaque 64-bit handle (in the runtime, the
//! address of the blocked task's wait entry). Registration is idempotent,
//! unregistration of an absent entry is a no-op, and notification picks
//! every entry whose interest intersects the event mask without changing
//! the set.
use vstd::prelude::*;

use crate::linux_def::EventMask;

verus! {

/// One registered waiter: an opaque handle and its interest mask.
#[derive(Clone, Copy, PartialEq, Eq, Structural, Debug)]
pub struct WaitEntry {
    pub id: u64,
    pub mask: EventMask,
}

/// The ids to wake for `mask`, in registration order.
pub open spec fn spec_notify_ids(s: Seq<WaitEntry>, mask: EventMask) -> Seq<u64>
    decreases s.len(),
{
    if s.len() == 0 {
        Seq::empty()
    } else {
        spec_notify_ids(s.drop_last(), mask) + (if s.last().mask & mask != 0 {
            seq![s.last().id]
        } else {
            Seq::empty()
        })
    }
}

/// The waiter set of one socket or event source.
#[derive(Clone)]
pub struct Queue {
    pub entries: Vec<WaitEntry>,
}

impl Queue {
    /// Ids are unique: each waiter is registered at most once.
    pub open spec fn wf(&self) -> bool {
        forall|i: int, j: int|
            #![trigger self.entries@[i].id, self.entries@[j].id]
            0 <= i < j < self.entries@.len() ==> self.entries@[i].id != self.entries@[j].id
    }

    pub open spec fn spec_contains(&self, id: u64) -> bool {
        exists|i: int| 0 <= i < self.entries@.len() && self.entries@[i].id == id
    }

    pub fn New() -> (r: Queue)
        ensures
            r.wf(),
            r.entries@.len() == 0,
    {
        Queue { entries: Vec::new() }
    }

    pub fn Len(&self) -> (r: usize)
        ensures
            r == self.entries@.len(),
    {
        self.entries.len()
    }

    /// Register a waiter. A fresh id is appended; re-registering an id
    /// only updates its interest mask, so registration is idempotent.
    pub fn EventRegister(&mut self, id: u64, mask: EventMask)
        requires
            old(self).wf(),
        ensures
            final(self).wf(),
            !old(self).spec_contains(id) ==> final(self).entries@ == old(self).entries@.push(
                WaitEntry { id, mask },
            ),
            old(self).spec_contains(id) ==> exists|i: int|
                {
                    &&& 0 <= i < old(self).entries@.len()
                    &&& old(self).entries@[i].id == id
                    &&& final(self).entries@ == old(self).entries@.update(
                        i,
                        WaitEntry { id, mask },
                    )
                },
    {
        let n = self.entries.len();
        let mut i: usize = 0;
        while i < n
            invariant
                old(self).wf(),
                self.entries@ == old(self).entries@,
                n == self.entries@.len(),
                0 <= i <= n,
                forall|k: int| 0 <= k < i ==> self.entries@[k].id != id,
            decreases n - i,
        {
            if self.entries[i].id == id {
                self.entries.set(i, WaitEntry { id, mask });
                return ;
            }
            i = i + 1;
        }
        self.entries.push(WaitEntry { id, mask });
    }

    /// Unregister a waiter; unregistering an id that is not present
    /// changes nothing.
    pub fn EventUnregister(&mut self, id: u64)
        requires
            old(self).wf(),
        ensures
            final(self).wf(),
            !old(self).spec_contains(id) ==> final(self).entries@ == old(self).entries@,
            old(self).spec_contains(id) ==> exists|i: int|
                {
                    &&& 0 <= i < old(self).entries@.len()
                    &&& old(self).entries@[i].id == id
                    &&& final(self).entries@ == old(self).entries@.remove(i)
                },
    {
        let n = self.entries.len();
        let mut i: usize = 0;
        while i < n
            invariant
                n == self.entries@.len(),
                0 <= i <= n,
                forall|k: int| 0 <= k < i ==> self.entries@[k].id != id,
                old(self).wf(),
                self.entries@ == old(self).entries@,
            decreases n - i,
        {
            if self.entries[i].id == id {
                self.entries.remove(i);
                return ;
            }
            i = i + 1;
        }
    }

    /// Edge-triggered notification: return the ids of every entry whose
    /// interest intersects `mask`, in registration order; the waiter set
    /// itself is unchanged (the caller wakes the returned tasks).
    pub fn Notify(&self, mask: EventMask) -> (r: Vec<u64>)
        ensures
            r@ == spec_notify_ids(self.entries@, mask),
    {
        let n = self.entries.len();
        let mut r: Vec<u64> = Vec::new();
        let mut i: usize = 0;
        while i < n
            invariant
                n == self.entries@.len(),
                0 <= i <= n,
                r@ == spec_notify_ids(self.entries@.take(i as int), mask),
            decreases n - i,
        {
            let e = self.entries[i];
            proof {
                assert(self.entries@.take(i + 1 as int).drop_last() == self.entries@.take(
                    i as int,
                ));
                assert(self.entries@.take(i + 1 as int).last() == self.entries@[i as int]);
            }
            if e.mask & mask != 0 {
                r.push(e.id);
            }
            i = i + 1;
        }
        proof {
            assert(self.entries@.take(n as int) == self.entries@);
        }
        r
    }
}

/// Waiter round trip: registering a fresh entry and then unregistering it
/// leaves the waiter set exactly as it was. The two hypotheses are the
/// effects `EventRegister` and `EventUnregister` guarantee for a fresh id.
pub proof fn lemma_register_unregister_identity(
    q: Queue,
    q2: Queue,
    q3: Queue,
    id: u64,
    mask: EventMask,
)
    requires
        q.wf(),
        !q.spec_contains(id),
        q2.entries@ == q.entries@.push(WaitEntry { id, mask }),
        exists|i: int|
            {
                &&& 0 <= i < q2.entries@.len()
                &&& q2.entries@[i].id == id
                &&& q3.entries@ == q2.entries@.remove(i)
            },
    ensures
        q3.entries@ == q.entries@,
{
    let i = choose|i: int|
        {
            &&& 0 <= i < q2.entries@.len()
            &&& q2.entries@[i].id == id
            &&& q3.entries@ == q2.entries@.remove(i)
        };
    if i < q.entries@.len() {
        assert(q.entries@[i].id == id);
        assert(false);
    }
    assert(i == q.entries@.len());
    assert(q3.entries@ =~= q.entries@);
}

} // verus!
