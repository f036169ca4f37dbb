//! Main RAM: a flat little-endian byte array with width-typed accessors.

use crate::bus::AccessWidth;
use crate::bus::Addressable;
use crate::bus::width_bytes;
use vstd::prelude::*;

verus! {

/// The console has 2 MiB of main RAM.
pub const RAM_SIZE: usize = 0x200000;

/// The little-endian value of the `w`-wide cell at `offset`.
pub open spec fn le_cell(data: Seq<u8>, offset: int, w: AccessWidth) -> int {
    match w {
        AccessWidth::Byte => data[offset] as int,
        AccessWidth::HalfWord => data[offset] + data[offset + 1] * 0x100,
        AccessWidth::Word => data[offset] + data[offset + 1] * 0x100 + data[offset + 2] * 0x10000
            + data[offset + 3] * 0x1000000,
    }
}

/// Main RAM; its view is the byte contents.
pub struct Ram {
    data: Vec<u8>,
}

impl View for Ram {
    type V = Seq<u8>;

    closed spec fn view(&self) -> Seq<u8> {
        self.data@
    }
}

impl Ram {
    /// The full size is always allocated.
    pub open spec fn wf(self) -> bool {
        self@.len() == RAM_SIZE
    }

    /// Instantiates main RAM, filled with a recognizable garbage byte.
    pub fn new() -> (r: Ram)
        ensures
            r.wf(),
            forall|i: int| 0 <= i < RAM_SIZE ==> r@[i] == 0xca,
    {
        let mut data: Vec<u8> = Vec::new();
        let mut i: usize = 0;
        while i < RAM_SIZE
            invariant
                i <= RAM_SIZE,
                data@.len() == i,
                forall|j: int| 0 <= j < i ==> data@[j] == 0xca,
            decreases RAM_SIZE - i,
        {
            data.push(0xca);
            i = i + 1;
        }
        Ram { data }
    }

    /// Fetches the little-endian value at `offset`.
    pub fn load<T: Addressable>(&self, offset: u32) -> (r: T)
        requires
            self.wf(),
            offset + width_bytes(T::spec_width()) <= RAM_SIZE,
        ensures
            r.value() == le_cell(self@, offset as int, T::spec_width()),
    {
        let offset = offset as usize;
        let v: u32 = match T::width() {
            AccessWidth::Byte => self.data[offset] as u32,
            AccessWidth::HalfWord => self.data[offset] as u32 + (self.data[offset + 1] as u32)
                * 0x100,
            AccessWidth::Word => self.data[offset] as u32 + (self.data[offset + 1] as u32) * 0x100
                + (self.data[offset + 2] as u32) * 0x10000 + (self.data[offset + 3] as u32)
                * 0x1000000,
        };
        T::from_u32(v)
    }

    /// Stores the little-endian value `val` at `offset`.
    pub fn store<T: Addressable>(&mut self, offset: u32, val: T)
        requires
            old(self).wf(),
            offset + width_bytes(T::spec_width()) <= RAM_SIZE,
        ensures
            final(self).wf(),
            le_cell(final(self)@, offset as int, T::spec_width()) == val.value(),
            forall|i: int|
                0 <= i < RAM_SIZE && !(offset <= i < offset + width_bytes(T::spec_width()))
                    ==> final(self)@[i] == old(self)@[i],
    {
        proof {
            val.lemma_value_bounds();
        }
        let offset = offset as usize;
        let v = val.as_u32();
        match T::width() {
            AccessWidth::Byte => {
                self.data[offset] = (v % 0x100) as u8;
            },
            AccessWidth::HalfWord => {
                self.data[offset] = (v % 0x100) as u8;
                self.data[offset + 1] = ((v / 0x100) % 0x100) as u8;
            },
            AccessWidth::Word => {
                self.data[offset] = (v % 0x100) as u8;
                self.data[offset + 1] = ((v / 0x100) % 0x100) as u8;
                self.data[offset + 2] = ((v / 0x10000) % 0x100) as u8;
                self.data[offset + 3] = (v / 0x1000000) as u8;
            },
        }
    }
}

} // verus!
