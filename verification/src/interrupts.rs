//! Edge-triggered interrupt line model.
//!
//! The GPU raises the VBlank interrupt on the synchronization call that
//! crosses into the vertical blanking period. The model records how many
//! times the line was asserted so that edge behaviour is observable.

use vstd::prelude::*;

verus! {

/// An interrupt source.
#[derive(Clone, Copy, PartialEq, Eq, Structural, Debug)]
pub enum Interrupt {
    VBlank,
}

/// Ghost projection of an [`InterruptState`].
pub ghost struct InterruptStateView {
    /// Whether the VBlank interrupt is pending.
    pub vblank_pending: bool,
    /// How many times the VBlank interrupt has been asserted.
    pub vblank_count: u64,
}

/// The interrupt controller's view of the lines this crate drives.
pub struct InterruptState {
    vblank_pending: bool,
    vblank_count: u64,
}

impl View for InterruptState {
    type V = InterruptStateView;

    closed spec fn view(&self) -> InterruptStateView {
        InterruptStateView { vblank_pending: self.vblank_pending, vblank_count: self.vblank_count }
    }
}

impl InterruptState {
    /// Creates an interrupt state with no interrupt pending.
    pub fn new() -> (r: InterruptState)
        ensures
            r@.vblank_pending == false,
            r@.vblank_count == 0,
    {
        InterruptState { vblank_pending: false, vblank_count: 0 }
    }

    /// Asserts `which`: marks it pending and counts the edge.
    pub fn assert_irq(&mut self, which: Interrupt)
        requires
            old(self)@.vblank_count < u64::MAX,
        ensures
            final(self)@.vblank_pending == true,
            final(self)@.vblank_count == old(self)@.vblank_count + 1,
    {
        match which {
            Interrupt::VBlank => {
                self.vblank_pending = true;
                self.vblank_count = self.vblank_count + 1;
            }
        }
    }

    /// Clears the pending flag of `which`.
    pub fn acknowledge(&mut self, which: Interrupt)
        ensures
            final(self)@.vblank_pending == false,
            final(self)@.vblank_count == old(self)@.vblank_count,
    {
        match which {
            Interrupt::VBlank => {
                self.vblank_pending = false;
            }
        }
    }

    /// Whether `which` is pending.
    pub fn pending(&self, which: Interrupt) -> (r: bool)
        ensures
            r == self@.vblank_pending,
    {
        match which {
            Interrupt::VBlank => self.vblank_pending,
        }
    }

    /// How many times `which` has been asserted.
    pub fn count(&self, which: Interrupt) -> (r: u64)
        ensures
            r == self@.vblank_count,
    {
        match which {
            Interrupt::VBlank => self.vblank_count,
        }
    }
}

} // verus!
