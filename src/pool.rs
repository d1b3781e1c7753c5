//! The pool: a fixed capacity and a counter of taken slots.
use vstd::prelude::*;
use crate::model::{GateState, admits, after_admit, after_release};

verus! {

/// How long, in milliseconds, a caller waiting for the pool to drain pauses
/// between two looks at the counter.
pub const DRAIN_POLL_INTERVAL_MS: u64 = 10;

/// Reasons for which a pool cannot be built.
#[derive(Debug, Clone, Copy, PartialEq, Eq, Structural)]
pub enum PoolError {
    /// The requested capacity was zero.
    InvalidConfiguration,
}

/// What a caller waiting for the pool to drain does next.
#[derive(Debug, Clone, Copy, PartialEq, Eq, Structural)]
pub enum DrainStep {
    /// No slot is taken: the wait is over.
    Complete,
    /// Some slot is still taken: pause for this many milliseconds, then look again.
    Wait { millis: u64 },
}

/// Admission control over a bounded pool of workers.
///
/// The capacity is fixed when the pool is built. Taking a slot does not check
/// the capacity: `can_accept_work` is a hint that a caller consults first.
pub struct WorkerPool {
    size: usize,
    active_workers: usize,
}

impl View for WorkerPool {
    type V = GateState;

    closed spec fn view(&self) -> GateState {
        GateState { capacity: self.size as nat, active: self.active_workers as int }
    }
}

impl WorkerPool {
    /// A pool is well formed when its capacity is positive.
    pub open spec fn wf(&self) -> bool {
        self@.capacity > 0
    }

    /// Builds a pool with `size` slots, none of them taken.
    pub fn new(size: usize) -> (r: Result<WorkerPool, PoolError>)
        ensures
            r is Err <==> size == 0,
            r matches Err(e) ==> e == PoolError::InvalidConfiguration,
            r matches Ok(p) ==> p.wf() && p@ == (GateState { capacity: size as nat, active: 0 }),
    {
        if size == 0 {
            return Err(PoolError::InvalidConfiguration);
        }
        Ok(WorkerPool { size, active_workers: 0 })
    }

    /// The capacity: how many tasks the pool is meant to run at once.
    pub fn size(&self) -> (r: usize)
        ensures
            r == self@.capacity,
    {
        self.size
    }

    /// How many slots are taken.
    pub fn active_workers(&self) -> (r: usize)
        ensures
            r == self@.active,
    {
        self.active_workers
    }

    /// Whether a slot is free. This reserves nothing.
    pub fn can_accept_work(&self) -> (r: bool)
        ensures
            r == admits(self@),
            r <==> self@.active < self@.capacity,
    {
        self.active_workers < self.size
    }

    /// Takes one slot, whether or not one is free.
    pub fn increment_active(&mut self)
        requires
            old(self)@.active < usize::MAX,
        ensures
            final(self)@ == after_admit(old(self)@),
            final(self).wf() == old(self).wf(),
    {
        self.active_workers = self.active_workers + 1;
    }

    /// Gives back one slot; every slot taken is given back once.
    pub fn decrement_active(&mut self)
        requires
            old(self)@.active > 0,
        ensures
            final(self)@ == after_release(old(self)@),
            final(self).wf() == old(self).wf(),
    {
        self.active_workers = self.active_workers - 1;
    }

    /// Whether every slot has been given back.
    pub fn is_drained(&self) -> (r: bool)
        ensures
            r <==> self@.active == 0,
    {
        self.active_workers == 0
    }

    /// The next move of a caller that waits for the pool to drain: the wait
    /// ends exactly when no slot is taken, and otherwise pauses for the poll
    /// interval before the next look.
    pub fn drain_step(&self) -> (r: DrainStep)
        ensures
            r == DrainStep::Complete <==> self@.active == 0,
            r matches DrainStep::Wait { millis } ==> millis == DRAIN_POLL_INTERVAL_MS,
    {
        if self.is_drained() {
            DrainStep::Complete
        } else {
            DrainStep::Wait { millis: DRAIN_POLL_INTERVAL_MS }
        }
    }
}

} // verus!
