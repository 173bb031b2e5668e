//! The wave pattern RAM of channel 3: sixteen bytes holding 32 four-bit samples.

use vstd::prelude::*;

verus! {

/// The wave pattern RAM.
pub struct WavePatternRam {
    pub data: [u8; 16],
}

impl WavePatternRam {
    /// Reads the byte at `position` (0 to 15).
    pub fn read_byte(&self, position: u16) -> (r: u8)
        requires
            position < 16,
        ensures
            r == self.data@[position as int],
    {
        self.data[position as usize]
    }

    /// Writes the byte at `position` (0 to 15).
    pub fn write_byte(&mut self, position: u16, value: u8)
        requires
            position < 16,
        ensures
            final(self).data@ == old(self).data@.update(position as int, value),
    {
        self.data[position as usize] = value;
    }
}

impl Default for WavePatternRam {
    fn default() -> (r: Self)
        ensures
            forall|i: int| 0 <= i < 16 ==> r.data@[i] == 0,
    {
        Self { data: [0u8; 16] }
    }
}

} // verus!
