//! The worker pool: a fixed-size concurrency gate.
//!
//! The pool bounds how many download tasks run their external-process phase
//! at once. The runner asks for a slot before starting a task's fetch phase
//! and returns it when the task reaches a terminal state; the count of held
//! slots never exceeds the fixed capacity, and releasing is independent of
//! how the task ended, so one failure never shrinks the pool for the others.

use vstd::prelude::*;

verus! {

/// A fixed capacity and the number of slots currently held.
#[derive(Debug, Clone, PartialEq, Eq, Structural)]
pub struct WorkerPool {
    pub capacity: usize,
    pub active: usize,
}

impl WorkerPool {
    /// No more slots are ever held than the capacity.
    pub open spec fn wf(self) -> bool {
        self.active <= self.capacity
    }

    pub fn new(capacity: usize) -> (r: Self)
        ensures
            r.wf(),
            r.capacity == capacity,
            r.active == 0,
    {
        WorkerPool { capacity, active: 0 }
    }

    /// Take a slot when one is free. The capacity never changes; the count
    /// of held slots grows by one exactly when the pool was not full.
    pub fn try_acquire(&mut self) -> (ok: bool)
        requires
            old(self).wf(),
        ensures
            final(self).wf(),
            final(self).capacity == old(self).capacity,
            ok == (old(self).active < old(self).capacity),
            ok ==> final(self).active == old(self).active + 1,
            !ok ==> final(self).active == old(self).active,
    {
        if self.active < self.capacity {
            self.active = self.active + 1;
            true
        } else {
            false
        }
    }

    /// Return a slot. Releasing never depends on how the task ended.
    pub fn release(&mut self)
        requires
            old(self).wf(),
            old(self).active > 0,
        ensures
            final(self).wf(),
            final(self).capacity == old(self).capacity,
            final(self).active == old(self).active - 1,
    {
        self.active = self.active - 1;
    }

    /// The concurrency bound: however many acquisitions and releases have
    /// happened, a well-formed pool never holds more slots than its capacity.
    pub proof fn lemma_bounded(self)
        requires
            self.wf(),
        ensures
            self.active <= self.capacity,
    {
    }
}

} // verus!
