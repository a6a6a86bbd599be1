//! The reactor's timeout schedule: a bounded store of deadlines that the
//! event loop polls against the clock the embedder reads for it.

use vstd::prelude::*;

use crate::result::{Error, Kind};
use crate::util::Timeout;

verus! {

/// One scheduled timeout: its handle, its deadline on the embedder's
/// millisecond clock, and the record handed back when it fires.
#[derive(Debug, Clone, Copy)]
pub struct TimerEntry<T> {
    /// The handle `cancel` takes back.
    pub handle: u64,
    /// When the entry fires, in the embedder's milliseconds.
    pub deadline: u64,
    /// The record returned on firing.
    pub payload: T,
}

/// A bounded schedule of timeouts.  Handles are assigned from a counter
/// that never repeats, so a handle cancels exactly the entry it was issued
/// for.
pub struct Timer<T> {
    /// The live entries, in scheduling order.
    pub entries: Vec<TimerEntry<T>>,
    /// The next handle to issue; larger than every live handle.
    pub next_handle: u64,
    /// How many entries may be live at once.
    pub capacity: usize,
}

/// Removing the one entry that carries handle `h` from a sequence whose
/// handles increase strictly leaves a sequence without `h`, still strictly
/// increasing and still below the bound.
proof fn lemma_remove_sorted_handles<T>(pre: Seq<TimerEntry<T>>, i: int, h: u64, bound: u64)
    requires
        0 <= i < pre.len(),
        pre[i].handle == h,
        forall|a: int| 0 <= a < pre.len() ==> #[trigger] pre[a].handle < bound,
        forall|a: int, b: int|
            0 <= a < b < pre.len() ==> #[trigger] pre[a].handle < #[trigger] pre[b].handle,
    ensures
        forall|j: int| 0 <= j < pre.remove(i).len() ==> #[trigger] pre.remove(i)[j].handle != h,
        forall|j: int| 0 <= j < pre.remove(i).len() ==> #[trigger] pre.remove(i)[j].handle < bound,
        forall|a: int, b: int|
            0 <= a < b < pre.remove(i).len() ==> #[trigger] pre.remove(i)[a].handle
                < #[trigger] pre.remove(i)[b].handle,
{
    let post = pre.remove(i);
    assert forall|j: int| 0 <= j < post.len() implies #[trigger] post[j] == (if j < i {
        pre[j]
    } else {
        pre[j + 1]
    }) by {
        assert(post[j] == if j < i {
            pre[j]
        } else {
            pre[j + 1]
        });
    }
}

impl<T> Timer<T> {
    /// Every live handle was issued earlier than the next one, and they are
    /// issued in order, so live handles are pairwise distinct.
    pub open spec fn wf(self) -> bool {
        &&& forall|i: int|
            0 <= i < self.entries@.len() ==> #[trigger] self.entries@[i].handle
                < self.next_handle
        &&& forall|i: int, j: int|
            0 <= i < j < self.entries@.len() ==> #[trigger] self.entries@[i].handle
                < #[trigger] self.entries@[j].handle
    }

    /// An empty schedule with the given capacity.
    pub fn new(capacity: usize) -> (t: Timer<T>)
        ensures
            t.wf(),
            t.entries@.len() == 0,
            t.capacity == capacity,
    {
        Timer { entries: Vec::new(), next_handle: 0, capacity }
    }

    /// How many entries are live.
    pub fn len(&self) -> (n: usize)
        ensures
            n == self.entries@.len(),
    {
        self.entries.len()
    }

    /// Schedule a timeout for `deadline`.  Fails with a timer error when
    /// the schedule is full, or when every handle has been issued.
    pub fn schedule(&mut self, deadline: u64, payload: T) -> (r: Result<Timeout, Error>)
        requires
            old(self).wf(),
        ensures
            final(self).wf(),
            final(self).capacity == old(self).capacity,
            r is Err <==> (old(self).entries@.len() >= old(self).capacity || old(
                self,
            ).next_handle == u64::MAX),
            r matches Err(e) ==> e.kind == Kind::Timer && *final(self) == *old(self),
            r matches Ok(h) ==> h == Timeout(old(self).next_handle) && final(self).entries@
                == old(self).entries@.push(
                TimerEntry {
                    handle: old(self).next_handle,
                    deadline: deadline,
                    payload: payload,
                },
            ) && final(self).next_handle == old(self).next_handle + 1,
    {
        if self.entries.len() >= self.capacity {
            return Err(Error::new(Kind::Timer, "Timer at capacity"));
        }
        if self.next_handle == u64::MAX {
            return Err(Error::new(Kind::Timer, "Timer handles exhausted"));
        }
        let handle = self.next_handle;
        self.entries.push(TimerEntry { handle, deadline, payload });
        self.next_handle = handle + 1;
        Ok(Timeout(handle))
    }

    /// Remove the entry the handle was issued for.  A handle never fires
    /// after its cancel; every other entry stays, in order.
    pub fn cancel(&mut self, handle: Timeout)
        requires
            old(self).wf(),
        ensures
            final(self).wf(),
            final(self).capacity == old(self).capacity,
            final(self).next_handle == old(self).next_handle,
            forall|j: int|
                0 <= j < final(self).entries@.len() ==> #[trigger] final(self).entries@[j].handle
                    != handle.0,
            (exists|i: int|
                0 <= i < old(self).entries@.len() && #[trigger] old(self).entries@[i].handle
                    == handle.0) ==> exists|i: int|
                0 <= i < old(self).entries@.len() && #[trigger] old(self).entries@[i].handle
                    == handle.0 && final(self).entries@ == old(self).entries@.remove(i),
            !(exists|i: int|
                0 <= i < old(self).entries@.len() && #[trigger] old(self).entries@[i].handle
                    == handle.0) ==> *final(self) == *old(self),
    {
        let mut i: usize = 0;
        while i < self.entries.len()
            invariant
                self.wf(),
                i <= self.entries@.len(),
                *self == *old(self),
                forall|j: int| 0 <= j < i ==> #[trigger] self.entries@[j].handle != handle.0,
            decreases self.entries@.len() - i,
        {
            if self.entries[i].handle == handle.0 {
                let ghost pre = self.entries@;
                self.entries.remove(i);
                proof {
                    lemma_remove_sorted_handles(pre, i as int, handle.0, self.next_handle);
                }
                return ;
            }
            i = i + 1;
        }
    }

    /// Hand back the first entry that is due at `now`, removing it: an
    /// entry fires at most once.  Nothing is due, nothing changes.
    pub fn poll(&mut self, now: u64) -> (r: Option<T>)
        requires
            old(self).wf(),
        ensures
            final(self).wf(),
            final(self).capacity == old(self).capacity,
            final(self).next_handle == old(self).next_handle,
            r is None ==> *final(self) == *old(self) && forall|i: int|
                0 <= i < old(self).entries@.len() ==> #[trigger] old(self).entries@[i].deadline
                    > now,
            r matches Some(t) ==> exists|i: int|
                0 <= i < old(self).entries@.len() && #[trigger] old(self).entries@[i].deadline
                    <= now && old(self).entries@[i].payload == t && final(self).entries@ == old(
                    self,
                ).entries@.remove(i),
    {
        let mut i: usize = 0;
        while i < self.entries.len()
            invariant
                self.wf(),
                i <= self.entries@.len(),
                *self == *old(self),
                forall|j: int| 0 <= j < i ==> #[trigger] self.entries@[j].deadline > now,
            decreases self.entries@.len() - i,
        {
            if self.entries[i].deadline <= now {
                let entry = self.entries.remove(i);
                return Some(entry.payload);
            }
            i = i + 1;
        }
        None
    }
}

} // verus!
