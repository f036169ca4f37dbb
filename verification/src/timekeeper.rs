//! Global emulation clock.
//!
//! The time keeper owns the running CPU-cycle counter and, for each
//! peripheral, the cycle at which that peripheral was last brought up to
//! date and the deadline at which it asks to be synchronized again.

use vstd::prelude::*;

verus! {

/// A peripheral synchronized through the time keeper.
#[derive(Clone, Copy, PartialEq, Eq, Structural, Debug)]
pub enum Peripheral {
    Gpu,
}

/// Ghost projection of a [`TimeKeeper`].
pub ghost struct TimeKeeperView {
    /// CPU cycles elapsed since the machine started.
    pub now: u64,
    /// Value of `now` when the GPU was last synchronized.
    pub gpu_last_sync: u64,
    /// CPU-cycle delay until the GPU asks to be synchronized again.
    pub gpu_next_sync_delta: u64,
}

/// The emulator's cycle counter and per-peripheral synchronization state.
pub struct TimeKeeper {
    now: u64,
    gpu_last_sync: u64,
    gpu_next_sync_delta: u64,
}

impl View for TimeKeeper {
    type V = TimeKeeperView;

    closed spec fn view(&self) -> TimeKeeperView {
        TimeKeeperView {
            now: self.now,
            gpu_last_sync: self.gpu_last_sync,
            gpu_next_sync_delta: self.gpu_next_sync_delta,
        }
    }
}

impl TimeKeeperView {
    /// CPU cycles elapsed since the GPU was last synchronized.
    pub open spec fn gpu_elapsed(self) -> int {
        self.now - self.gpu_last_sync
    }
}

impl TimeKeeper {
    /// A peripheral can never have been synchronized in the future.
    pub open spec fn wf(self) -> bool {
        self@.gpu_last_sync <= self@.now
    }

    /// Creates a time keeper at cycle zero with every peripheral up to date.
    pub fn new() -> (r: TimeKeeper)
        ensures
            r.wf(),
            r@.now == 0,
            r@.gpu_last_sync == 0,
            r@.gpu_next_sync_delta == 0,
    {
        TimeKeeper { now: 0, gpu_last_sync: 0, gpu_next_sync_delta: 0 }
    }

    /// Advances the running cycle counter by `cycles`.
    pub fn tick(&mut self, cycles: u64)
        requires
            old(self).wf(),
            old(self)@.now + cycles <= u64::MAX,
        ensures
            final(self).wf(),
            final(self)@.now == old(self)@.now + cycles,
            final(self)@.gpu_last_sync == old(self)@.gpu_last_sync,
            final(self)@.gpu_next_sync_delta == old(self)@.gpu_next_sync_delta,
    {
        self.now = self.now + cycles;
    }

    /// Reports the cycles elapsed since `who` was last synchronized and
    /// marks it as up to date.
    pub fn sync(&mut self, who: Peripheral) -> (r: u64)
        requires
            old(self).wf(),
        ensures
            final(self).wf(),
            r == old(self)@.gpu_elapsed(),
            final(self)@.now == old(self)@.now,
            final(self)@.gpu_last_sync == old(self)@.now,
            final(self)@.gpu_next_sync_delta == old(self)@.gpu_next_sync_delta,
    {
        match who {
            Peripheral::Gpu => {
                let elapsed = self.now - self.gpu_last_sync;
                self.gpu_last_sync = self.now;
                elapsed
            }
        }
    }

    /// Registers the delay, in CPU cycles, after which `who` must be
    /// synchronized again.
    pub fn set_next_sync_delta(&mut self, who: Peripheral, delta: u64)
        requires
            old(self).wf(),
        ensures
            final(self).wf(),
            final(self)@.now == old(self)@.now,
            final(self)@.gpu_last_sync == old(self)@.gpu_last_sync,
            final(self)@.gpu_next_sync_delta == delta,
    {
        match who {
            Peripheral::Gpu => {
                self.gpu_next_sync_delta = delta;
            }
        }
    }

    /// The delay registered for `who` by the last deadline prediction.
    pub fn next_sync_delta(&self, who: Peripheral) -> (r: u64)
        ensures
            r == self@.gpu_next_sync_delta,
    {
        match who {
            Peripheral::Gpu => self.gpu_next_sync_delta,
        }
    }

    /// The running cycle counter.
    pub fn now(&self) -> (r: u64)
        ensures
            r == self@.now,
    {
        self.now
    }
}

} // verus!
