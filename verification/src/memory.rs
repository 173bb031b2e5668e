//! The 64 KiB address space the processor reads and writes, as a flat array of bytes.

use vstd::prelude::*;

verus! {

/// The number of addressable bytes.
pub const MEMORY_SIZE: usize = 0x10000;

/// The address after `address`, wrapping from 0xFFFF to 0x0000.
pub open spec fn next_address(address: u16) -> int {
    (address as int + 1) % 0x10000
}

/// The number of bytes at the start of the address space a bootstrap ROM covers.
pub const BOOTSTRAP_SIZE: usize = 0x100;

/// `memory` with its first bytes (at most 256) replaced by `bytes`.
pub open spec fn overlaid(memory: Seq<u8>, bytes: Seq<u8>) -> Seq<u8> {
    Seq::new(memory.len(), |i: int| if i < bytes.len() && i < BOOTSTRAP_SIZE { bytes[i] } else { memory[i] })
}

/// The whole 16-bit address space, and, while a bootstrap ROM is mapped at its start, the
/// bytes the ROM hides.
pub struct Memory {
    data: Vec<u8>,
    hidden_by_bootstrap: Option<Vec<u8>>,
}

impl View for Memory {
    type V = Seq<u8>;

    closed spec fn view(&self) -> Seq<u8> {
        self.data@
    }
}

impl Memory {
    /// The address space holds exactly one byte per address.
    pub open spec fn wf(&self) -> bool {
        self@.len() == MEMORY_SIZE
    }

    /// An address space whose bytes are all 0.
    pub fn new() -> (m: Self)
        ensures
            m@ == Seq::new(MEMORY_SIZE as nat, |i: int| 0u8),
            m.hidden_bytes() is None,
            m.wf(),
    {
        let mut data: Vec<u8> = Vec::new();
        let mut i: usize = 0;
        while i < MEMORY_SIZE
            invariant
                i <= MEMORY_SIZE,
                data@ == Seq::new(i as nat, |j: int| 0u8),
            decreases MEMORY_SIZE - i,
        {
            data.push(0);
            i = i + 1;
        }
        Memory { data, hidden_by_bootstrap: None }
    }

    /// The bytes a mapped bootstrap ROM hides, or `None` when no ROM is mapped.
    pub closed spec fn hidden_bytes(&self) -> Option<Seq<u8>> {
        match self.hidden_by_bootstrap {
            Some(bytes) => Some(bytes@),
            None => None,
        }
    }

    /// The address space once the bootstrap ROM, if one is mapped, gives way to the bytes
    /// it hides.
    pub open spec fn unmapped(&self) -> Seq<u8> {
        match self.hidden_bytes() {
            Some(bytes) => overlaid(self@, bytes),
            None => self@,
        }
    }

    /// Maps a bootstrap ROM at address 0: its first 256 bytes (or all, if it is shorter)
    /// replace those there, which are kept aside until the ROM is erased.
    pub fn map_bootstrap_rom(&mut self, rom: &Vec<u8>)
        requires
            old(self).wf(),
        ensures
            ({
                let n = if rom@.len() < BOOTSTRAP_SIZE { rom@.len() as int } else { BOOTSTRAP_SIZE as int };
                &&& final(self)@ == overlaid(old(self)@, rom@.take(n))
                &&& final(self).hidden_bytes() == Some(old(self)@.take(n))
            }),
            final(self).wf(),
    {
        let n: usize = if rom.len() < BOOTSTRAP_SIZE { rom.len() } else { BOOTSTRAP_SIZE };
        let mut hidden: Vec<u8> = Vec::new();
        let mut i: usize = 0;
        while i < n
            invariant
                n <= BOOTSTRAP_SIZE,
                n <= rom@.len(),
                i <= n,
                self.data@.len() == MEMORY_SIZE,
                hidden@ == old(self)@.take(i as int),
                self.data@ == overlaid(old(self)@, rom@.take(i as int)),
                old(self)@.len() == MEMORY_SIZE,
            decreases n - i,
        {
            hidden.push(self.data[i]);
            self.data.set(i, rom[i]);
            i = i + 1;
            assert(self.data@ =~= overlaid(old(self)@, rom@.take(i as int)));
            assert(hidden@ =~= old(self)@.take(i as int));
        }
        self.hidden_by_bootstrap = Some(hidden);
    }

    /// Whether a bootstrap ROM is mapped.
    pub fn has_bootstrap_rom(&self) -> (r: bool)
        ensures
            r == self.hidden_bytes() is Some,
    {
        self.hidden_by_bootstrap.is_some()
    }

    /// Unmaps the bootstrap ROM: the bytes it hid (at most 256) come back.
    pub fn erase_bootstrap_rom(&mut self)
        requires
            old(self).wf(),
        ensures
            final(self)@ == old(self).unmapped(),
            final(self).hidden_bytes() is None,
            final(self).wf(),
    {
        let hidden: Option<Vec<u8>> = self.hidden_by_bootstrap.take();
        match hidden {
            Some(bytes) => {
                let mut i: usize = 0;
                while i < bytes.len() && i < BOOTSTRAP_SIZE
                    invariant
                        self.data@.len() == MEMORY_SIZE,
                        self.hidden_by_bootstrap is None,
                        old(self)@.len() == MEMORY_SIZE,
                        i <= BOOTSTRAP_SIZE,
                        i <= bytes@.len(),
                        self.data@ == overlaid(old(self)@, bytes@.take(i as int)),
                    decreases BOOTSTRAP_SIZE - i,
                {
                    self.data.set(i, bytes[i]);
                    i = i + 1;
                    assert(self.data@ =~= overlaid(old(self)@, bytes@.take(i as int)));
                }
                assert(self.data@ =~= overlaid(old(self)@, bytes@));
            },
            None => {},
        }
    }

    /// Sets aside the bytes a mapped bootstrap ROM hides, leaving the address space as it is.
    pub(crate) fn detach_bootstrap(&mut self) -> (hidden: Option<Vec<u8>>)
        ensures
            final(self)@ == old(self)@,
            final(self).hidden_bytes() is None,
            old(self).hidden_bytes() == (match hidden {
                Some(bytes) => Some(bytes@),
                None => None::<Seq<u8>>,
            }),
    {
        self.hidden_by_bootstrap.take()
    }

    /// Puts back bytes set aside by `detach_bootstrap`.
    pub(crate) fn attach_bootstrap(&mut self, hidden: Option<Vec<u8>>)
        ensures
            final(self)@ == old(self)@,
            final(self).hidden_bytes() == (match hidden {
                Some(bytes) => Some(bytes@),
                None => None::<Seq<u8>>,
            }),
    {
        self.hidden_by_bootstrap = hidden;
    }

    /// Reads the byte at `address`.
    pub fn read_8(&self, address: u16) -> (r: u8)
        requires
            self.wf(),
        ensures
            r == self@[address as int],
    {
        self.data[address as usize]
    }

    /// Reads the byte at `address` as a two's complement signed value.
    pub fn read_8_signed(&self, address: u16) -> (r: i8)
        requires
            self.wf(),
        ensures
            r == self@[address as int] as i8,
    {
        self.data[address as usize] as i8
    }

    /// Reads the little-endian word at `address`: the low byte at `address`, the high
    /// byte at the next address.
    pub fn read_16(&self, address: u16) -> (r: u16)
        requires
            self.wf(),
        ensures
            r as int == self@[next_address(address)] as int * 256 + self@[address as int] as int,
    {
        let low: u8 = self.data[address as usize];
        let high: u8 = self.data[address.wrapping_add(1) as usize];
        crate::math::two_bytes_to_word(high, low)
    }

    /// Writes `value` at `address`.
    pub fn write_8(&mut self, address: u16, value: u8)
        requires
            old(self).wf(),
        ensures
            final(self)@ == old(self)@.update(address as int, value),
            final(self).wf(),
    {
        self.data.set(address as usize, value);
    }

    /// Writes the little-endian word `value` at `address`: the low byte at `address`,
    /// the high byte at the next address.
    pub fn write_16(&mut self, address: u16, value: u16)
        requires
            old(self).wf(),
        ensures
            final(self)@ == old(self)@.update(address as int, (value as int % 256) as u8).update(
                next_address(address),
                (value as int / 256) as u8,
            ),
            final(self).wf(),
    {
        let parts: (u8, u8) = crate::math::word_to_two_bytes(value);
        self.data.set(address as usize, parts.1);
        self.data.set(address.wrapping_add(1) as usize, parts.0);
    }
}

impl Default for Memory {
    fn default() -> (m: Self)
        ensures
            m@ == Seq::new(MEMORY_SIZE as nat, |i: int| 0u8),
            m.wf(),
    {
        Memory::new()
    }
}

/// A word written at an address reads back unchanged from that address.
pub proof fn lemma_word_write_read(before: Seq<u8>, address: u16, value: u16)
    requires
        before.len() == MEMORY_SIZE,
    ensures
        ({
            let after = before.update(address as int, (value as int % 256) as u8).update(
                next_address(address),
                (value as int / 256) as u8,
            );
            after[next_address(address)] as int * 256 + after[address as int] as int == value as int
        }),
{
}

} // verus!

verus! {

/// Something the processor reads bytes from at 16-bit addresses.
pub trait ReadMemory {
    /// Whether a byte can be read at `position`.
    spec fn can_read(&self, position: u16) -> bool;

    /// The byte a read at `position` gives.
    spec fn read_spec(&self, position: u16) -> u8;

    /// Reads the byte at `position`.
    fn read_byte(&self, position: u16) -> (r: u8)
        requires
            self.can_read(position),
        ensures
            r == self.read_spec(position),
    ;
}

/// Something the processor writes bytes to at 16-bit addresses.
pub trait WriteMemory: Sized {
    /// Whether `value` can be written at `position`.
    spec fn can_write(&self, position: u16, value: u8) -> bool;

    /// Whether `self` is what writing `value` at `position` makes of `before`.
    spec fn is_write_of(&self, before: &Self, position: u16, value: u8) -> bool;

    /// Writes `value` at `position`.
    fn write_byte(&mut self, position: u16, value: u8)
        requires
            old(self).can_write(position, value),
        ensures
            final(self).is_write_of(&*old(self), position, value),
    ;
}

} // verus!

verus! {

/// Mapping a bootstrap ROM and erasing it again leaves the address space as it was: the
/// bytes the ROM hid come back unchanged.
pub proof fn law_bootstrap_unmap_restores(before: Seq<u8>, rom: Seq<u8>)
    requires
        before.len() == MEMORY_SIZE,
    ensures
        ({
            let n = if rom.len() < BOOTSTRAP_SIZE { rom.len() as int } else { BOOTSTRAP_SIZE as int };
            overlaid(overlaid(before, rom.take(n)), before.take(n)) == before
        }),
{
    let n = if rom.len() < BOOTSTRAP_SIZE { rom.len() as int } else { BOOTSTRAP_SIZE as int };
    assert(overlaid(overlaid(before, rom.take(n)), before.take(n)) =~= before);
}

} // verus!
