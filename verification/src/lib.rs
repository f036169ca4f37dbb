//! Verified core of a PlayStation-class GPU emulator.
//!
//! The crate models the GPU command processor (GP0 drawing / GP1 control
//! registers), its video-timing state machine, the 32-bit status projection,
//! and the small collaborators it is driven by: a time keeper, an interrupt
//! line, the hardware-timer notification hook and a recording renderer.
//! Main RAM and the SPU register file are modelled alongside.

use vstd::prelude::*;

pub mod bus;
pub mod command_buffer;
pub mod fixed;
pub mod gpu;
pub mod interrupts;
pub mod model;
pub mod ram;
pub mod renderer;
pub mod timekeeper;
pub mod timers;
pub mod timing;

verus! {

/// Console hardware variant; selects the GPU clock frequency.
#[derive(Clone, Copy, PartialEq, Eq, Structural, Debug)]
pub enum HardwareType {
    Ntsc,
    Pal,
}

/// CPU clock rate in Hz, fixed by the console's design.
pub const CPU_FREQ_HZ: u64 = 33_868_500;

} // verus!
