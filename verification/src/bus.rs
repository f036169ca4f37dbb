//! Width-typed bus values.
//!
//! Memory-mapped peripherals are addressed with byte, halfword or word
//! accesses; the value types carry their own access width.

use vstd::prelude::*;

verus! {

/// Width of a bus access.
#[derive(Clone, Copy, PartialEq, Eq, Structural, Debug)]
pub enum AccessWidth {
    Byte,
    HalfWord,
    Word,
}

/// Number of bytes moved by an access of the given width.
pub open spec fn width_bytes(w: AccessWidth) -> int {
    match w {
        AccessWidth::Byte => 1,
        AccessWidth::HalfWord => 2,
        AccessWidth::Word => 4,
    }
}

/// One more than the largest value an access of the given width carries.
pub open spec fn width_modulus(w: AccessWidth) -> int {
    match w {
        AccessWidth::Byte => 0x100,
        AccessWidth::HalfWord => 0x10000,
        AccessWidth::Word => 0x100000000,
    }
}

/// A value that can travel on the bus: a byte, halfword or word.
pub trait Addressable: Sized + Copy {
    /// The access width of this value type.
    spec fn spec_width() -> AccessWidth;

    /// The carried value.
    spec fn value(self) -> int;

    /// The access width of this value type.
    fn width() -> (r: AccessWidth)
        ensures
            r == Self::spec_width(),
    ;

    /// Builds a value from the low bits of a 32-bit word.
    fn from_u32(v: u32) -> (r: Self)
        ensures
            r.value() == v as int % width_modulus(Self::spec_width()),
    ;

    /// The value widened to 32 bits.
    fn as_u32(self) -> (r: u32)
        ensures
            r as int == self.value(),
    ;

    /// The low halfword of the value.
    fn as_u16(self) -> (r: u16)
        ensures
            r as int == self.value() % 0x10000,
    ;

    /// Every value fits its access width.
    proof fn lemma_value_bounds(self)
        ensures
            0 <= self.value() < width_modulus(Self::spec_width()),
    ;
}

impl Addressable for u8 {
    open spec fn spec_width() -> AccessWidth {
        AccessWidth::Byte
    }

    open spec fn value(self) -> int {
        self as int
    }

    fn width() -> (r: AccessWidth) {
        AccessWidth::Byte
    }

    fn from_u32(v: u32) -> (r: u8) {
        (v % 0x100) as u8
    }

    fn as_u32(self) -> (r: u32) {
        self as u32
    }

    fn as_u16(self) -> (r: u16) {
        self as u16
    }

    proof fn lemma_value_bounds(self) {
    }
}

impl Addressable for u16 {
    open spec fn spec_width() -> AccessWidth {
        AccessWidth::HalfWord
    }

    open spec fn value(self) -> int {
        self as int
    }

    fn width() -> (r: AccessWidth) {
        AccessWidth::HalfWord
    }

    fn from_u32(v: u32) -> (r: u16) {
        (v % 0x10000) as u16
    }

    fn as_u32(self) -> (r: u32) {
        self as u32
    }

    fn as_u16(self) -> (r: u16) {
        self
    }

    proof fn lemma_value_bounds(self) {
    }
}

impl Addressable for u32 {
    open spec fn spec_width() -> AccessWidth {
        AccessWidth::Word
    }

    open spec fn value(self) -> int {
        self as int
    }

    fn width() -> (r: AccessWidth) {
        AccessWidth::Word
    }

    fn from_u32(v: u32) -> (r: u32) {
        v
    }

    fn as_u32(self) -> (r: u32) {
        self
    }

    fn as_u16(self) -> (r: u16) {
        (self % 0x10000) as u16
    }

    proof fn lemma_value_bounds(self) {
    }
}

} // verus!
