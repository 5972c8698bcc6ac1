//! The history store: a bounded FIFO of interval samples (durations in
//! microseconds), plus a lock-guarded shared form for use across threads.

use vstd::prelude::*;
use vstd::rwlock::{RwLock, RwLockPredicate};
use std::collections::VecDeque;
use crate::BUFFER_SIZE;

verus! {

broadcast use vstd::std_specs::vecdeque::group_vec_dequeue_axioms;

/// The contents of a bounded history after one append: the sample goes on the
/// back, and if the capacity would be exceeded the oldest sample is evicted.
pub open spec fn pushed(s: Seq<u64>, sample: u64) -> Seq<u64> {
    if s.len() + 1 > BUFFER_SIZE {
        s.push(sample).drop_first()
    } else {
        s.push(sample)
    }
}

/// A bounded FIFO of interval samples, oldest evicted first.
pub struct History {
    items: VecDeque<u64>,
}

impl View for History {
    type V = Seq<u64>;

    closed spec fn view(&self) -> Seq<u64> {
        self.items@
    }
}

impl History {
    /// The buffer never holds more than `BUFFER_SIZE` samples.
    pub open spec fn wf(&self) -> bool {
        self@.len() <= BUFFER_SIZE
    }

    /// A history starts out empty.
    pub fn new() -> (h: History)
        ensures
            h@ == Seq::<u64>::empty(),
            h.wf(),
    {
        History { items: VecDeque::with_capacity(BUFFER_SIZE) }
    }

    /// Number of samples currently held.
    pub fn len(&self) -> (n: usize)
        ensures
            n == self@.len(),
    {
        self.items.len()
    }

    /// Appends one sample, evicting the oldest if the buffer is full.
    pub fn push(&mut self, sample: u64)
        requires
            old(self).wf(),
        ensures
            final(self)@ == pushed(old(self)@, sample),
            final(self).wf(),
    {
        self.items.push_back(sample);
        if self.items.len() > BUFFER_SIZE {
            self.items.pop_front();
        }
    }

    /// An independent copy of the current contents, in insertion order.
    pub fn snapshot(&self) -> (v: Vec<u64>)
        ensures
            v@ == self@,
    {
        let n = self.items.len();
        let mut v: Vec<u64> = Vec::with_capacity(n);
        let mut i: usize = 0;
        while i < n
            invariant
                i <= n,
                n == self.items@.len(),
                v@ == self.items@.take(i as int),
            decreases n - i,
        {
            v.push(self.items[i]);
            proof {
                assert(v@ =~= self.items@.take(i + 1 as int));
            }
            i += 1;
        }
        proof {
            assert(v@ =~= self.items@);
        }
        v
    }
}

/// Lock invariant for the shared history: the buffer stays within capacity.
pub struct HistoryInv {}

impl RwLockPredicate<History> for HistoryInv {
    open spec fn inv(self, h: History) -> bool {
        h.wf()
    }
}

/// The single piece of shared mutable state: a history store behind a
/// reader-writer lock. The recorder thread appends through `push`; the render
/// loop copies the contents out through `snapshot`. The lock's invariant
/// guarantees that no reader ever observes more than `BUFFER_SIZE` samples.
pub struct SharedHistory {
    lock: RwLock<History, HistoryInv>,
}

impl SharedHistory {
    /// A shared history starts out empty.
    pub fn new() -> SharedHistory {
        SharedHistory { lock: RwLock::new(History::new(), Ghost(HistoryInv {})) }
    }

    /// Appends one sample under the lock, held only for the append itself.
    pub fn push(&self, sample: u64) {
        let (mut h, handle) = self.lock.acquire_write();
        h.push(sample);
        handle.release_write(h);
    }

    /// Copies the current contents out under the lock, held only for the
    /// copy, so that drawing never blocks the recorder.
    pub fn snapshot(&self) -> (v: Vec<u64>)
        ensures
            v@.len() <= BUFFER_SIZE,
    {
        let handle = self.lock.acquire_read();
        let v = handle.borrow().snapshot();
        handle.release_read();
        v
    }
}

} // verus!
