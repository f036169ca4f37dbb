//! Video-timing tables and clock-ratio helpers.
//!
//! Pure data: scanline and frame geometry per video standard, the encoded
//! horizontal resolution with its dotclock divider, and the GPU-to-CPU
//! clock ratio in Q16.16.

use crate::HardwareType;
use crate::CPU_FREQ_HZ;
use vstd::prelude::*;

verus! {

/// Video standard of the display output.
#[derive(Clone, Copy, PartialEq, Eq, Structural, Debug)]
pub enum VMode {
    /// NTSC: 480i60
    Ntsc,
    /// PAL: 576i50
    Pal,
}

/// Vertical resolution of the display output.
#[derive(Clone, Copy, PartialEq, Eq, Structural, Debug)]
pub enum VerticalRes {
    Y240Lines,
    Y480Lines,
}

/// Color depth of the display output.
#[derive(Clone, Copy, PartialEq, Eq, Structural, Debug)]
pub enum DisplayDepth {
    D15Bits,
    D24Bits,
}

/// Which half-frame interlaced output is currently scanning.
#[derive(Clone, Copy, PartialEq, Eq, Structural, Debug)]
pub enum Field {
    Top,
    Bottom,
}

/// Status-word bit of a field: Top is 1, Bottom is 0.
pub open spec fn field_bit(f: Field) -> int {
    match f {
        Field::Top => 1,
        Field::Bottom => 0,
    }
}

/// GPU clock ticks in one scanline for the given video standard.
pub open spec fn ticks_per_line(m: VMode) -> int {
    match m {
        VMode::Ntsc => 3412,
        VMode::Pal => 3404,
    }
}

/// Scanlines in one frame (one field for interlaced output).
pub open spec fn lines_per_frame(m: VMode) -> int {
    match m {
        VMode::Ntsc => 263,
        VMode::Pal => 314,
    }
}

/// GPU clock rate in Hz of the given hardware variant.
pub open spec fn gpu_hz(hw: HardwareType) -> int {
    match hw {
        HardwareType::Ntsc => 53_690_000,
        HardwareType::Pal => 53_200_000,
    }
}

/// GPU-to-CPU clock ratio as a Q16.16 integer.
pub open spec fn ratio_fp(hw: HardwareType) -> int {
    gpu_hz(hw) * 0x10000 / (CPU_FREQ_HZ as int)
}

/// The clock ratio of either hardware variant is a small positive number.
pub proof fn lemma_ratio_fp_bounds(hw: HardwareType)
    ensures
        1 <= ratio_fp(hw) <= 0x20000,
{
    assert(ratio_fp(HardwareType::Ntsc) == 103890);
    assert(ratio_fp(HardwareType::Pal) == 102942);
}

/// The encoded 3-bit horizontal-resolution code.
#[derive(Clone, Copy, PartialEq, Eq, Structural, Debug)]
pub struct HorizontalRes(u8);

/// Packs the two resolution fields into the 3-bit code.
pub open spec fn hres_code(hr1: int, hr2: int) -> int {
    hr2 % 2 + (hr1 % 4) * 2
}

/// The dotclock divider selected by a 3-bit resolution code.
pub open spec fn spec_dotclock_divider(code: int) -> int {
    if code % 2 == 1 {
        7
    } else {
        let hr1 = (code / 2) % 4;
        if hr1 == 0 {
            10
        } else if hr1 == 1 {
            8
        } else if hr1 == 2 {
            5
        } else {
            4
        }
    }
}

impl HorizontalRes {
    /// The packed 3-bit code.
    pub closed spec fn code(self) -> int {
        self.0 as int
    }

    /// Builds the code from the 2-bit field `hr1` and the 1-bit field `hr2`.
    pub fn from_fields(hr1: u8, hr2: u8) -> (r: HorizontalRes)
        ensures
            r.code() == hres_code(hr1 as int, hr2 as int),
            r.code() < 8,
    {
        HorizontalRes(hr2 % 2 + (hr1 % 4) * 2)
    }

    /// The value of bits 16 to 18 of the status word.
    pub fn into_status(self) -> (r: u32)
        ensures
            r == self.code() * 0x10000,
    {
        (self.0 as u32) * 0x10000
    }

    /// The divider applied to the GPU clock to generate the dotclock.
    ///
    /// If the third resolution bit is set the output is the 368-pixel mode
    /// (divider 7); otherwise the two-bit field selects one of the dividers
    /// for the 256, 320, 512 and 640 pixel modes.
    pub fn dotclock_divider(self) -> (r: u8)
        ensures
            r == spec_dotclock_divider(self.code()),
    {
        if self.0 % 2 == 1 {
            7
        } else {
            let hr1 = (self.0 / 2) % 4;
            if hr1 == 0 {
                10
            } else if hr1 == 1 {
                8
            } else if hr1 == 2 {
                5
            } else {
                4
            }
        }
    }
}

} // verus!
