//! Q16.16 fixed-point cycle arithmetic.
//!
//! Durations and clock phases are expressed as CPU-cycle counts with 16
//! fractional bits, so that long-running accumulation of the CPU-to-GPU
//! clock conversion does not drift.

use vstd::prelude::*;

verus! {

/// Number of fractional bits of the fixed-point representation.
pub const FRAC_BITS: u64 = 16;

/// Scale factor of the fixed-point representation: `2 ^ FRAC_BITS`.
pub const FRAC_ONE: u64 = 0x10000;

/// A duration or phase in CPU cycles, as a Q16.16 fixed-point number.
#[derive(Clone, Copy, PartialEq, Eq, Structural, Debug)]
pub struct FracCycles(u64);

impl FracCycles {
    /// The raw fixed-point representation of this value.
    pub closed spec fn fp(self) -> u64 {
        self.0
    }

    /// Converts a whole number of cycles to fixed point.
    pub fn from_cycles(cycles: u64) -> (r: FracCycles)
        requires
            cycles * FRAC_ONE <= u64::MAX,
        ensures
            r.fp() == cycles * FRAC_ONE,
    {
        FracCycles(cycles * FRAC_ONE)
    }

    /// Builds a value from its raw fixed-point representation.
    pub fn from_fp(fp: u64) -> (r: FracCycles)
        ensures
            r.fp() == fp,
    {
        FracCycles(fp)
    }

    /// Returns the raw fixed-point representation.
    pub fn get_fp(self) -> (r: u64)
        ensures
            r == self.fp(),
    {
        self.0
    }

    /// Number of fractional bits of the representation.
    pub fn frac_bits() -> (r: u64)
        ensures
            r == FRAC_BITS,
    {
        FRAC_BITS
    }

    /// Fixed-point addition.
    pub fn add(self, other: FracCycles) -> (r: FracCycles)
        requires
            self.fp() + other.fp() <= u64::MAX,
        ensures
            r.fp() == self.fp() + other.fp(),
    {
        FracCycles(self.0 + other.0)
    }

    /// Fixed-point multiplication: both operands are Q16.16 scalars.
    pub fn multiply(self, other: FracCycles) -> (r: FracCycles)
        requires
            self.fp() * other.fp() <= u64::MAX,
        ensures
            r.fp() == (self.fp() * other.fp()) / (FRAC_ONE as int),
    {
        FracCycles((self.0 * other.0) / FRAC_ONE)
    }

    /// Fixed-point division: both operands are Q16.16 scalars.
    pub fn divide(self, divisor: FracCycles) -> (r: FracCycles)
        requires
            divisor.fp() > 0,
            self.fp() * FRAC_ONE <= u64::MAX,
        ensures
            r.fp() == (self.fp() * FRAC_ONE) / (divisor.fp() as int),
    {
        FracCycles((self.0 * FRAC_ONE) / divisor.0)
    }
}

} // verus!
