//! Channels with an 11-bit frequency split over NRx3 and NRx4.

use vstd::prelude::*;

verus! {

/// The frequency whose bits 8 to 10 come from bits 0 to 2 of `register` and whose
/// low byte is that of `frequency`.
pub open spec fn high_part_spec(frequency: u16, register: u8) -> u16 {
    (((register & 0b111u8) as u16) << 8u16) | (frequency & 0xFFu16)
}

/// The frequency whose low byte is `register` and whose bits 8 to 10 are those of
/// `frequency`.
pub open spec fn low_part_spec(frequency: u16, register: u8) -> u16 {
    (frequency & 0x700u16) | (register as u16)
}

/// A channel whose frequency can be read and replaced.
pub trait FrequencyUpdatable: Sized {
    /// The channel's frequency.
    spec fn frequency_spec(&self) -> u16;

    /// The channel with its frequency replaced.
    spec fn with_frequency_spec(&self, frequency: u16) -> Self;

    /// Replaces the frequency.
    fn set_frequency(&mut self, frequency: u16)
        ensures
            *final(self) == old(self).with_frequency_spec(frequency),
            final(self).frequency_spec() == frequency,
    ;

    /// The frequency.
    fn get_frequency(&self) -> (r: u16)
        ensures
            r == self.frequency_spec(),
    ;

    /// Replaces bits 8 to 15 of the frequency by bits 0 to 2 of the register (NRx4).
    fn set_high_part_from_register(&mut self, register: u8)
        ensures
            *final(self) == old(self).with_frequency_spec(high_part_spec(old(self).frequency_spec(), register)),
            final(self).frequency_spec() == (register as int % 8) * 256 + old(self).frequency_spec() as int % 256,
    {
        let current: u16 = self.get_frequency();
        let frequency_low: u16 = current & 0xFFu16;
        let frequency_hi: u16 = ((register & 0b111u8) as u16) << 8u16;
        assert((frequency_hi | frequency_low) as int == (register as int % 8) * 256 + current as int % 256)
            by (bit_vector)
            requires
                frequency_hi == ((register & 0b111u8) as u16) << 8u16,
                frequency_low == current & 0xFFu16,
        ;

        self.set_frequency(frequency_hi | frequency_low);
    }

    /// Replaces bits 0 to 7 of the frequency by the register (NRx3), keeping bits 8 to 10.
    fn set_low_part_from_register(&mut self, register: u8)
        ensures
            *final(self) == old(self).with_frequency_spec(low_part_spec(old(self).frequency_spec(), register)),
            final(self).frequency_spec() == ((old(self).frequency_spec() as int / 256) % 8) * 256 + register as int,
    {
        let frequency_low: u8 = register;
        let current: u16 = self.get_frequency();
        let frequency_hi: u16 = current & 0x700u16;
        assert((frequency_hi | (frequency_low as u16)) as int == ((current as int / 256) % 8) * 256 + frequency_low as int)
            by (bit_vector)
            requires
                frequency_hi == current & 0x700u16,
        ;

        self.set_frequency(frequency_hi | (frequency_low as u16));
    }
}

/// A channel that takes writes of its frequency register (NRx3).
pub trait FrequencyRegisterUpdatable: FrequencyUpdatable {
    /// Replaces the low byte of the frequency by the register.
    fn trigger_frequency_register_update(&mut self, register: u8)
        ensures
            *final(self) == old(self).with_frequency_spec(low_part_spec(old(self).frequency_spec(), register)),
            final(self).frequency_spec() == ((old(self).frequency_spec() as int / 256) % 8) * 256 + register as int,
    {
        self.set_low_part_from_register(register);
    }
}

} // verus!
