//! A block of cartridge memory: the ROM image or the cartridge RAM.

use vstd::prelude::*;

verus! {

/// Reads bytes of cartridge memory by offset.
pub trait ReadCartridgeMemory {
    /// The bytes held.
    spec fn bytes(&self) -> Seq<u8>;

    /// Reads the byte at `position`.
    fn read_byte(&self, position: usize) -> (r: u8)
        requires
            position < self.bytes().len(),
        ensures
            r == self.bytes()[position as int],
    ;
}

/// Writes bytes of cartridge memory by offset.
pub trait WriteCartridgeMemory: ReadCartridgeMemory {
    /// Writes `value` at `position`.
    fn write_byte(&mut self, position: usize, value: u8)
        requires
            position < old(self).bytes().len(),
        ensures
            final(self).bytes() == old(self).bytes().update(position as int, value),
    ;
}

/// A block of cartridge memory.
pub struct CartridgeMemorySector {
    data: Vec<u8>,
}

impl View for CartridgeMemorySector {
    type V = Seq<u8>;

    closed spec fn view(&self) -> Seq<u8> {
        self.data@
    }
}

impl CartridgeMemorySector {
    /// A block of `size` bytes, all 0.
    pub fn of_size(size: usize) -> (s: Self)
        ensures
            s@ == Seq::new(size as nat, |i: int| 0u8),
    {
        Self { data: vec![0; size] }
    }

    /// A block holding `data`.
    pub fn new_from_data(data: Vec<u8>) -> (s: Self)
        ensures
            s@ == data@,
    {
        Self { data }
    }

    /// The number of bytes held.
    pub fn size(&self) -> (r: usize)
        ensures
            r == self@.len(),
    {
        self.data.len()
    }
}

impl ReadCartridgeMemory for CartridgeMemorySector {
    open spec fn bytes(&self) -> Seq<u8> {
        self@
    }

    fn read_byte(&self, position: usize) -> (r: u8) {
        self.data[position]
    }
}

impl WriteCartridgeMemory for CartridgeMemorySector {
    fn write_byte(&mut self, position: usize, value: u8) {
        self.data.set(position, value);
    }
}

} // verus!
