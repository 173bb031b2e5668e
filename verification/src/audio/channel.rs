//! A sound channel: its five registers NRx0 to NRx4 and its length timer.

use vstd::prelude::*;

use crate::audio::registers::{AudioRegister, InitialLengthRegister, WriteEffect};
use crate::math::{bit_set, is_bit_set};
use crate::memory::ReadMemory;

verus! {

/// What a write or a clock tick does to the channel's on flag in NR52.
#[derive(PartialEq, Eq, Structural, Debug, Clone, Copy)]
pub enum ChannelEvent {
    /// The flag is left as it is.
    NoEvent,
    /// The channel with this number is on.
    ChannelEnabled(u8),
    /// The channel with this number is off.
    ChannelDisabled(u8),
}

/// A sound channel.
pub struct Channel<
    T: AudioRegister,
    U: AudioRegister + InitialLengthRegister,
    V: AudioRegister,
    X: AudioRegister,
    Y: AudioRegister,
> {
    pub number: u8,

    pub nrx0: T,
    pub nrx1: U,
    pub nrx2: V,
    pub nrx3: X,
    pub nrx4: Y,

    pub length_counter: u16,
    pub max_length: u16,
}

impl<
    T: AudioRegister,
    U: AudioRegister + InitialLengthRegister,
    V: AudioRegister,
    X: AudioRegister,
    Y: AudioRegister,
> Channel<T, U, V, X, Y> {
    /// What writing `value` to register `position` (0 to 4) sets off.
    pub open spec fn write_effect(self, position: u16, value: u8) -> WriteEffect {
        if position == 0 {
            self.nrx0.set_spec(value | T::write_mask_spec()).1
        } else if position == 1 {
            self.nrx1.set_spec(value | U::write_mask_spec()).1
        } else if position == 2 {
            self.nrx2.set_spec(value | V::write_mask_spec()).1
        } else if position == 3 {
            self.nrx3.set_spec(value | X::write_mask_spec()).1
        } else {
            self.nrx4.set_spec(value | Y::write_mask_spec()).1
        }
    }

    /// Whether writing `value` to register `position` is something a channel handles:
    /// the position is one of its registers and the write does not switch the audio unit.
    pub open spec fn can_write(self, position: u16, value: u8) -> bool {
        position <= 4 && self.write_effect(position, value) != WriteEffect::AudioOff
            && self.write_effect(position, value) != WriteEffect::AudioOn
    }

    /// The channel with `value` written to register `position`, the length counter aside.
    pub open spec fn registers_written(self, position: u16, value: u8) -> Self {
        if position == 0 {
            Channel { nrx0: self.nrx0.set_spec(value | T::write_mask_spec()).0, ..self }
        } else if position == 1 {
            Channel { nrx1: self.nrx1.set_spec(value | U::write_mask_spec()).0, ..self }
        } else if position == 2 {
            Channel { nrx2: self.nrx2.set_spec(value | V::write_mask_spec()).0, ..self }
        } else if position == 3 {
            Channel { nrx3: self.nrx3.set_spec(value | X::write_mask_spec()).0, ..self }
        } else {
            Channel { nrx4: self.nrx4.set_spec(value | Y::write_mask_spec()).0, ..self }
        }
    }

    /// The channel and the event after writing `value` to register `position`: a trigger
    /// reloads an expired length counter with the initial length and turns the channel on,
    /// switching the DAC off turns it off.
    pub open spec fn write_spec(self, position: u16, value: u8) -> (Self, ChannelEvent) {
        let written = self.registers_written(position, value);
        let effect = self.write_effect(position, value);
        if effect == WriteEffect::Triggered {
            (Channel {
                length_counter: if written.length_counter == written.max_length {
                    written.nrx1.initial_length_spec()
                } else {
                    written.length_counter
                },
                ..written
            }, ChannelEvent::ChannelEnabled(self.number))
        } else if effect == WriteEffect::DacDisabled {
            (written, ChannelEvent::ChannelDisabled(self.number))
        } else {
            (written, ChannelEvent::NoEvent)
        }
    }

    /// The byte a read of register `position` (0 to 4) gives.
    pub open spec fn read_spec(self, position: u16) -> u8 {
        if position == 0 {
            self.nrx0.value_spec() | T::read_mask_spec()
        } else if position == 1 {
            self.nrx1.value_spec() | U::read_mask_spec()
        } else if position == 2 {
            self.nrx2.value_spec() | V::read_mask_spec()
        } else if position == 3 {
            self.nrx3.value_spec() | X::read_mask_spec()
        } else {
            self.nrx4.value_spec() | Y::read_mask_spec()
        }
    }

    /// The channel with every register cleared.
    pub open spec fn cleared(self) -> Self {
        Channel {
            nrx0: self.nrx0.set_spec(0).0,
            nrx1: self.nrx1.set_spec(0).0,
            nrx2: self.nrx2.set_spec(0).0,
            nrx3: self.nrx3.set_spec(0).0,
            nrx4: self.nrx4.set_spec(0).0,
            ..self
        }
    }

    /// Whether the length timer runs: bit 6 of NRx4 as it reads.
    pub open spec fn length_enabled(self) -> bool {
        bit_set(self.nrx4.value_spec() | Y::read_mask_spec(), 6)
    }

    /// The channel and the event after one tick of the length timer: when it runs, the
    /// counter advances and reaching the maximum length turns the channel off.
    pub open spec fn tick_length_spec(self) -> (Self, ChannelEvent) {
        if !self.length_enabled() {
            (self, ChannelEvent::NoEvent)
        } else {
            let counter = ((self.length_counter as int + 1) % 65536) as u16;
            (Channel { length_counter: counter, ..self }, if counter == self.max_length {
                ChannelEvent::ChannelDisabled(self.number)
            } else {
                ChannelEvent::NoEvent
            })
        }
    }

    /// The 11-bit period: bits 0 to 2 of NRx4 above the byte in NRx3.
    pub open spec fn frequency_spec(self) -> u32 {
        ((self.nrx4.value_spec() as int % 8) * 256 + self.nrx3.value_spec() as int) as u32
    }

    /// A channel with the given number, registers and maximum length, its length counter at 0.
    pub fn new(number: u8, nrx0: T, nrx1: U, nrx2: V, nrx3: X, nrx4: Y, max_length: u16) -> (c: Self)
        ensures
            c == (Channel { number, nrx0, nrx1, nrx2, nrx3, nrx4, length_counter: 0, max_length }),
    {
        Self {
            number,
            nrx0,
            nrx1,
            nrx2,
            nrx3,
            nrx4,
            length_counter: 0,
            max_length,
        }
    }

    /// Clears every register.
    pub fn clear(&mut self)
        ensures
            *final(self) == old(self).cleared(),
    {
        self.nrx0.clear();
        self.nrx1.clear();
        self.nrx2.clear();
        self.nrx3.clear();
        self.nrx4.clear();
    }

    /// Writes `value` to register `position`, and gives the event for NR52 and what the
    /// register write set off.
    pub fn write_register(&mut self, position: u16, value: u8) -> (r: (ChannelEvent, WriteEffect))
        requires
            old(self).can_write(position, value),
        ensures
            (*final(self), r.0) == old(self).write_spec(position, value),
            r.1 == old(self).write_effect(position, value),
    {
        let write_effect: WriteEffect = match position {
            0 => self.nrx0.write(value),
            1 => self.nrx1.write(value),
            2 => self.nrx2.write(value),
            3 => self.nrx3.write(value),
            _ => self.nrx4.write(value),
        };

        let event: ChannelEvent = match write_effect {
            WriteEffect::Triggered => {
                if self.length_counter == self.max_length {
                    self.length_counter = self.nrx1.get_initial_length();
                }

                ChannelEvent::ChannelEnabled(self.number)
            },
            WriteEffect::DacDisabled => ChannelEvent::ChannelDisabled(self.number),
            _ => ChannelEvent::NoEvent,
        };

        (event, write_effect)
    }

    /// Writes `value` to register `position` and gives the event for NR52.
    pub fn write_byte(&mut self, position: u16, value: u8) -> (event: ChannelEvent)
        requires
            old(self).can_write(position, value),
        ensures
            (*final(self), event) == old(self).write_spec(position, value),
    {
        self.write_register(position, value).0
    }

    /// Advances the length timer by one tick.
    pub fn tick_length(&mut self) -> (event: ChannelEvent)
        ensures
            (*final(self), event) == old(self).tick_length_spec(),
    {
        if !self.is_length_enabled() {
            return ChannelEvent::NoEvent;
        }

        self.length_counter = self.length_counter.wrapping_add(1);

        if self.length_counter == self.max_length {
            return ChannelEvent::ChannelDisabled(self.number);
        }

        ChannelEvent::NoEvent
    }

    /// Whether the length timer runs.
    fn is_length_enabled(&self) -> (r: bool)
        ensures
            r == self.length_enabled(),
    {
        let nrx4: u8 = self.nrx4.read();
        is_bit_set(&nrx4, 6)
    }

    /// The channel's number, 1 to 4.
    pub fn get_number(&self) -> (r: u8)
        ensures
            r == self.number,
    {
        self.number
    }

    /// Register NRx0.
    pub fn get_nrx0(&self) -> (r: &T)
        ensures
            *r == self.nrx0,
    {
        &self.nrx0
    }

    /// The 11-bit period.
    pub fn read_frequency(&self) -> (r: u32)
        ensures
            r == self.frequency_spec(),
    {
        proof { crate::bits::lemma_sweep_bits(); }
        let high: u32 = (self.nrx4.value() & 0b111u8) as u32;
        let low: u32 = self.nrx3.value() as u32;
        high * 256 + low
    }

    /// Stores an 11-bit period: its low byte in NRx3, its top three bits in bits 0 to 2
    /// of NRx4, whose other bits are kept.
    pub fn write_frequency(&mut self, frequency: u32)
        requires
            frequency < 2048,
        ensures
            *final(self) == (Channel {
                nrx3: old(self).nrx3.set_spec((frequency as int % 256) as u8).0,
                nrx4: old(self).nrx4.set_spec(
                    (old(self).nrx4.value_spec() as int - old(self).nrx4.value_spec() as int % 8 + frequency as int / 256) as u8,
                ).0,
                ..*old(self)
            }),
    {
        proof {
            crate::bits::lemma_sweep_bits();
            crate::bits::lemma_frequency_bits();
        }
        let low: u8 = (frequency % 256) as u8;
        let high: u8 = (frequency / 256) as u8;
        self.nrx3.set_value(low);
        let kept: u8 = self.nrx4.value() & 0xF8u8;
        self.nrx4.set_value(kept | high);
    }
}

impl<
    T: AudioRegister,
    U: AudioRegister + InitialLengthRegister,
    V: AudioRegister,
    X: AudioRegister,
    Y: AudioRegister,
> ReadMemory for Channel<T, U, V, X, Y> {
    open spec fn can_read(&self, position: u16) -> bool {
        position <= 4
    }

    open spec fn read_spec(&self, position: u16) -> u8 {
        Channel::read_spec(*self, position)
    }

    fn read_byte(&self, position: u16) -> (r: u8) {
        match position {
            0 => self.nrx0.read(),
            1 => self.nrx1.read(),
            2 => self.nrx2.read(),
            3 => self.nrx3.read(),
            _ => self.nrx4.read(),
        }
    }
}

} // verus!
