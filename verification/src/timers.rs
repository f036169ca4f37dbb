//! Hardware-timer notification hook.
//!
//! The timer subsystem clocks counters from the dotclock and the HSYNC
//! signal, so every GPU control write that changes the video geometry
//! hands it the new periods.

use crate::gpu::Gpu;
use crate::timing::ratio_fp;
use crate::timing::spec_dotclock_divider;
use crate::timing::ticks_per_line;
use vstd::prelude::*;

verus! {

/// Ghost projection of [`Timers`].
pub ghost struct TimersView {
    /// Dotclock period, in Q16.16 CPU cycles, as of the last notification.
    pub dotclock_fp: u64,
    /// HSYNC period, in Q16.16 CPU cycles, as of the last notification.
    pub hsync_fp: u64,
}

/// The video-derived clock rates the timer subsystem was last told about.
pub struct Timers {
    dotclock_fp: u64,
    hsync_fp: u64,
}

impl View for Timers {
    type V = TimersView;

    closed spec fn view(&self) -> TimersView {
        TimersView { dotclock_fp: self.dotclock_fp, hsync_fp: self.hsync_fp }
    }
}

impl Timers {
    /// Creates the subsystem before any notification.
    pub fn new() -> (r: Timers)
        ensures
            r@.dotclock_fp == 0,
            r@.hsync_fp == 0,
    {
        Timers { dotclock_fp: 0, hsync_fp: 0 }
    }

    /// Re-reads the dotclock and HSYNC periods after a GPU change that
    /// affects them.
    pub fn video_timings_changed(&mut self, gpu: &Gpu)
        ensures
            final(self)@.dotclock_fp == ratio_fp(gpu@.hardware) * spec_dotclock_divider(
                gpu@.disp.hres,
            ),
            final(self)@.hsync_fp == ticks_per_line(gpu@.disp.vmode) * 0x10000 * 0x10000
                / ratio_fp(gpu@.hardware),
    {
        self.dotclock_fp = gpu.dotclock_period().get_fp();
        self.hsync_fp = gpu.hsync_period().get_fp();
    }
}

} // verus!
