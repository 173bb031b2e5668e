//! The audio processing unit: the four channels, the master volume and panning
//! registers NR50 and NR51, the master control NR52, the wave pattern RAM and the
//! frame sequencer counter that clocks length timers and the sweep.

use vstd::prelude::*;

use std::collections::BTreeMap;

use crate::audio::channel::{Channel, ChannelEvent};
use crate::audio::registers::no_register::NoRegister;
use crate::audio::registers::nr30::NR30;
use crate::audio::registers::nr31::NR31;
use crate::audio::registers::nr32::NR32;
use crate::audio::registers::nr41::NR41;
use crate::audio::registers::nr43::NR43;
use crate::audio::registers::nr44::NR44;
use crate::audio::registers::nr52::{NR52, channel_bit};
use crate::audio::registers::nrx1::NRX1;
use crate::audio::registers::nrx2::NRX2;
use crate::audio::registers::nrx3::NRX3;
use crate::audio::registers::nrx4::NRX4;
use crate::audio::registers::{AudioRegister, WriteEffect};
use crate::audio::sweep_channel::SweepChannel;
use crate::audio::wave_pattern_ram::WavePatternRam;
use crate::bus::address::Address;
use crate::debug::Debuggable;
use crate::memory::{ReadMemory, WriteMemory};

verus! {

/// The audio processing unit.
pub struct Apu {
    pub channel_1: SweepChannel,
    pub channel_2: Channel<NoRegister, NRX1, NRX2, NRX3, NRX4>,
    pub channel_3: Channel<NR30, NR31, NR32, NRX3, NRX4>,
    pub channel_4: Channel<NoRegister, NR41, NRX2, NR43, NR44>,

    pub nr50: u8,
    pub nr51: u8,
    pub nr52: NR52,

    pub wave_pattern_ram: WavePatternRam,

    pub div_apu: u8,
}

impl Apu {
    /// The channels carry their numbers 1 to 4, and the frame sequencer counts 0 to 7.
    pub open spec fn wf(self) -> bool {
        &&& self.channel_1.channel.number == 1
        &&& self.channel_2.number == 2
        &&& self.channel_3.number == 3
        &&& self.channel_4.number == 4
        &&& self.div_apu < 8
    }

    /// The unit after NR52 takes note of a channel event.
    pub open spec fn after_event(self, event: ChannelEvent) -> Self {
        match event {
            ChannelEvent::ChannelEnabled(channel) => Apu {
                nr52: NR52 { value: self.nr52.value | channel_bit(channel) },
                ..self
            },
            ChannelEvent::ChannelDisabled(channel) => Apu {
                nr52: NR52 { value: self.nr52.value & !channel_bit(channel) },
                ..self
            },
            ChannelEvent::NoEvent => self,
        }
    }

    /// The unit with every channel register, NR50 and NR51 cleared.
    pub open spec fn cleared(self) -> Self {
        Apu {
            channel_1: SweepChannel { channel: self.channel_1.channel.cleared(), ..self.channel_1 },
            channel_2: self.channel_2.cleared(),
            channel_3: self.channel_3.cleared(),
            channel_4: self.channel_4.cleared(),
            nr50: 0,
            nr51: 0,
            ..self
        }
    }

    /// The byte a read at `position` gives: the channel registers from 0xFF10 to 0xFF23,
    /// NR50, NR51, NR52 with its read mask, the wave pattern RAM from 0xFF30 to 0xFF3F,
    /// and 0xFF for any other address.
    pub open spec fn read(self, position: u16) -> u8 {
        if 0xFF10 <= position <= 0xFF14 {
            self.channel_1.channel.read_spec((position - 0xFF10) as u16)
        } else if 0xFF15 <= position <= 0xFF19 {
            self.channel_2.read_spec((position - 0xFF15) as u16)
        } else if 0xFF1A <= position <= 0xFF1E {
            self.channel_3.read_spec((position - 0xFF1A) as u16)
        } else if 0xFF1F <= position <= 0xFF23 {
            self.channel_4.read_spec((position - 0xFF1F) as u16)
        } else if position == 0xFF24 {
            self.nr50
        } else if position == 0xFF25 {
            self.nr51
        } else if position == 0xFF26 {
            self.nr52.value | 0x70
        } else if 0xFF30 <= position <= 0xFF3F {
            self.wave_pattern_ram.data@[position - 0xFF30]
        } else {
            0xFF
        }
    }

    /// Whether a write at `position` is served: NR52 and the wave pattern RAM always are,
    /// anything while the unit is off is (and ignored), and otherwise the channel
    /// registers, NR50 and NR51 are.
    pub open spec fn can_write(self, position: u16) -> bool {
        ||| position == 0xFF26
        ||| 0xFF30 <= position <= 0xFF3F
        ||| self.nr52.value < 128
        ||| 0xFF10 <= position <= 0xFF25
    }

    /// Whether `after` is the unit after writing `value` at `position`: the wave pattern
    /// RAM is always written, with everything else kept; any other write is `write`.
    pub open spec fn is_written(self, after: Self, position: u16, value: u8) -> bool {
        if 0xFF30 <= position <= 0xFF3F {
            &&& after == Apu { wave_pattern_ram: after.wave_pattern_ram, ..self }
            &&& after.wave_pattern_ram.data@ == self.wave_pattern_ram.data@.update(
                position - 0xFF30,
                value,
            )
        } else {
            after == self.write(position, value)
        }
    }

    /// The unit after writing `value` at `position`, outside the wave pattern RAM.
    /// Writing NR52 switches the unit: off clears the registers, on restarts the frame
    /// sequencer. While the unit is off other writes are ignored; otherwise they go to
    /// the channel registers, NR50 or NR51, and NR52 takes note of the channel event.
    pub open spec fn write(self, position: u16, value: u8) -> Self {
        if position == 0xFF26 {
            let (nr52, effect) = self.nr52.set_spec(value | NR52::write_mask_spec());
            let switched = Apu { nr52, ..self };
            if effect == WriteEffect::AudioOff {
                switched.cleared()
            } else if effect == WriteEffect::AudioOn {
                Apu { div_apu: 0, ..switched }
            } else {
                switched
            }
        } else if self.nr52.value < 128 {
            self
        } else if 0xFF10 <= position <= 0xFF14 {
            let (c, event, _) = self.channel_1.write_spec((position - 0xFF10) as u16, value);
            Apu { channel_1: c, ..self }.after_event(event)
        } else if 0xFF15 <= position <= 0xFF19 {
            let (c, event) = self.channel_2.write_spec((position - 0xFF15) as u16, value);
            Apu { channel_2: c, ..self }.after_event(event)
        } else if 0xFF1A <= position <= 0xFF1E {
            let (c, event) = self.channel_3.write_spec((position - 0xFF1A) as u16, value);
            Apu { channel_3: c, ..self }.after_event(event)
        } else if 0xFF1F <= position <= 0xFF23 {
            let (c, event) = self.channel_4.write_spec((position - 0xFF1F) as u16, value);
            Apu { channel_4: c, ..self }.after_event(event)
        } else if position == 0xFF24 {
            Apu { nr50: value, ..self }
        } else {
            Apu { nr51: value, ..self }
        }
    }

    /// The unit after one tick of the frame sequencer: on even counts the four length
    /// timers tick, on counts 2 and 6 the sweep of channel 1 ticks, and the count moves
    /// on modulo 8.
    pub open spec fn tick_spec(self) -> Self {
        let a1 = if self.div_apu % 2 == 0 {
            let (c1, e1) = self.channel_1.tick_length_spec();
            let s1 = Apu { channel_1: c1, ..self }.after_event(e1);
            let (c2, e2) = s1.channel_2.tick_length_spec();
            let s2 = Apu { channel_2: c2, ..s1 }.after_event(e2);
            let (c3, e3) = s2.channel_3.tick_length_spec();
            let s3 = Apu { channel_3: c3, ..s2 }.after_event(e3);
            let (c4, e4) = s3.channel_4.tick_length_spec();
            Apu { channel_4: c4, ..s3 }.after_event(e4)
        } else {
            self
        };
        let a2 = if self.div_apu == 2 || self.div_apu == 6 {
            let (c1, e1) = a1.channel_1.tick_sweep_spec();
            Apu { channel_1: c1, ..a1 }.after_event(e1)
        } else {
            a1
        };
        Apu { div_apu: ((self.div_apu as int + 1) % 8) as u8, ..a2 }
    }

    /// Ticks the frame sequencer, at 512 Hz.
    pub fn tick(&mut self)
        requires
            old(self).wf(),
        ensures
            *final(self) == old(self).tick_spec(),
            final(self).wf(),
    {
        // Ticks every 256 Hz
        let length_step: bool = self.div_apu.is_multiple_of(2);

        if length_step {
            let channel_event: ChannelEvent = self.channel_1.tick_length();
            self.process_channel_event(channel_event);

            let channel_event: ChannelEvent = self.channel_2.tick_length();
            self.process_channel_event(channel_event);

            let channel_event: ChannelEvent = self.channel_3.tick_length();
            self.process_channel_event(channel_event);

            let channel_event: ChannelEvent = self.channel_4.tick_length();
            self.process_channel_event(channel_event);
        }

        // Ticks every 128 Hz
        let sweep_step: bool = self.div_apu == 2 || self.div_apu == 6;

        if sweep_step {
            let channel_event: ChannelEvent = self.channel_1.tick_sweep();
            self.process_channel_event(channel_event);
        }

        self.div_apu = (self.div_apu + 1) % 8;
    }

    /// Clears every channel register, NR50 and NR51.
    fn clear_audio_registers(&mut self)
        ensures
            *final(self) == old(self).cleared(),
    {
        self.channel_1.clear();
        self.channel_2.clear();
        self.channel_3.clear();
        self.channel_4.clear();

        self.nr50 = 0;
        self.nr51 = 0;
    }

    /// Records a channel event in NR52.
    fn process_channel_event(&mut self, channel_event: ChannelEvent)
        requires
            channel_event matches ChannelEvent::ChannelEnabled(c) ==> 1 <= c <= 4,
            channel_event matches ChannelEvent::ChannelDisabled(c) ==> 1 <= c <= 4,
        ensures
            *final(self) == old(self).after_event(channel_event),
    {
        match channel_event {
            ChannelEvent::ChannelEnabled(channel) => self.nr52.set_ro_channel_flag_active(channel),
            ChannelEvent::ChannelDisabled(channel) => self.nr52.set_ro_channel_flag_inactive(channel),
            ChannelEvent::NoEvent => {},
        }
    }
}

impl Default for Apu {
    fn default() -> (apu: Self)
        ensures
            apu.wf(),
            apu.channel_1 == SweepChannel::new_spec(),
            apu.channel_2 == (Channel {
                number: 2,
                nrx0: NoRegister { value: 0xFF },
                nrx1: NRX1 { value: 0x3F },
                nrx2: NRX2 { value: 0x00 },
                nrx3: NRX3 { value: 0xFF },
                nrx4: NRX4 { value: 0xBF },
                length_counter: 0,
                max_length: 64,
            }),
            apu.channel_3 == (Channel {
                number: 3,
                nrx0: NR30 { value: 0x7F },
                nrx1: NR31 { value: 0xFF },
                nrx2: NR32 { value: 0x9F },
                nrx3: NRX3 { value: 0xFF },
                nrx4: NRX4 { value: 0xBF },
                length_counter: 0,
                max_length: 256,
            }),
            apu.channel_4 == (Channel {
                number: 4,
                nrx0: NoRegister { value: 0xFF },
                nrx1: NR41 { value: 0xFF },
                nrx2: NRX2 { value: 0x00 },
                nrx3: NR43 { value: 0 },
                nrx4: NR44 { value: 0xBF },
                length_counter: 0,
                max_length: 64,
            }),
            apu.nr50 == 0x77,
            apu.nr51 == 0xf3,
            apu.nr52.value == 0xF1,
            forall|i: int| 0 <= i < 16 ==> apu.wave_pattern_ram.data@[i] == 0,
            apu.div_apu == 0,
    {
        Self {
            channel_1: SweepChannel::new(),

            channel_2: Channel::new(
                2,
                NoRegister::default(),
                NRX1::new_nr21(),
                NRX2::new_nr22(),
                NRX3::default(),
                NRX4::default(),
                64,
            ),

            channel_3: Channel::new(
                3,
                NR30::default(),
                NR31::default(),
                NR32::default(),
                NRX3::default(),
                NRX4::default(),
                256,
            ),

            channel_4: Channel::new(
                4,
                NoRegister::default(),
                NR41::default(),
                NRX2::new_nr42(),
                NR43::default(),
                NR44::default(),
                64,
            ),

            nr50: 0x77,
            nr51: 0xf3,
            nr52: NR52::default(),
            wave_pattern_ram: WavePatternRam::default(),
            div_apu: 0,
        }
    }
}

impl Debuggable for Apu {
    /// No values are shown for the audio unit.
    fn get_debug_values(&self) -> (r: BTreeMap<&str, String>)
        ensures
            r@ == Map::<&str, String>::empty(),
    {
        BTreeMap::new()
    }
}

impl ReadMemory for Apu {
    open spec fn can_read(&self, position: u16) -> bool {
        true
    }

    open spec fn read_spec(&self, position: u16) -> u8 {
        self.read(position)
    }

    fn read_byte(&self, position: u16) -> (r: u8) {
        if Address::NR10_SOUND_1_SWEEP <= position && position <= Address::NR14_SOUND_1_FR_HI {
            self.channel_1.read_byte(position - Address::NR10_SOUND_1_SWEEP)
        } else if Address::NR20_SOUND_2_UNUSED <= position && position <= Address::NR24_SOUND_2_FR_HI {
            self.channel_2.read_byte(position - Address::NR20_SOUND_2_UNUSED)
        } else if Address::NR30_SOUND_3_ON_OFF <= position && position <= Address::NR34_SOUND_3_FR_HI {
            self.channel_3.read_byte(position - Address::NR30_SOUND_3_ON_OFF)
        } else if Address::NR40_SOUND_4_UNUSED <= position && position <= Address::NR44_SOUND_4_CONTROL {
            self.channel_4.read_byte(position - Address::NR40_SOUND_4_UNUSED)
        } else if position == Address::NR50 {
            self.nr50
        } else if position == Address::NR51 {
            self.nr51
        } else if position == Address::NR52_SOUND {
            self.nr52.read()
        } else if Address::WAVE_PATTERN_START <= position && position <= Address::WAVE_PATTERN_END {
            self.wave_pattern_ram.read_byte(position - Address::WAVE_PATTERN_START)
        } else {
            0xFF
        }
    }
}

impl WriteMemory for Apu {
    open spec fn can_write(&self, position: u16, value: u8) -> bool {
        self.wf() && Apu::can_write(*self, position)
    }

    open spec fn is_write_of(&self, before: &Self, position: u16, value: u8) -> bool {
        before.is_written(*self, position, value) && self.wf()
    }

    fn write_byte(&mut self, position: u16, value: u8) {
        proof { crate::bits::lemma_or_disjoint(); }
        if position == Address::NR52_SOUND {
            let write_effect: WriteEffect = self.nr52.write(value);

            match write_effect {
                WriteEffect::AudioOff => self.clear_audio_registers(),
                WriteEffect::AudioOn => self.div_apu = 0,
                _ => {},
            }

            return;
        }

        if Address::WAVE_PATTERN_START <= position && position <= Address::WAVE_PATTERN_END {
            self.wave_pattern_ram.write_byte(position - Address::WAVE_PATTERN_START, value);

            return;
        }

        if !self.nr52.is_on() {
            return;
        }

        let channel_event: ChannelEvent = if Address::NR10_SOUND_1_SWEEP <= position && position <= Address::NR14_SOUND_1_FR_HI {
            self.channel_1.write_byte(position - Address::NR10_SOUND_1_SWEEP, value).0
        } else if Address::NR20_SOUND_2_UNUSED <= position && position <= Address::NR24_SOUND_2_FR_HI {
            self.channel_2.write_byte(position - Address::NR20_SOUND_2_UNUSED, value)
        } else if Address::NR30_SOUND_3_ON_OFF <= position && position <= Address::NR34_SOUND_3_FR_HI {
            self.channel_3.write_byte(position - Address::NR30_SOUND_3_ON_OFF, value)
        } else if Address::NR40_SOUND_4_UNUSED <= position && position <= Address::NR44_SOUND_4_CONTROL {
            self.channel_4.write_byte(position - Address::NR40_SOUND_4_UNUSED, value)
        } else if position == Address::NR50 {
            self.nr50 = value;
            ChannelEvent::NoEvent
        } else {
            self.nr51 = value;
            ChannelEvent::NoEvent
        };

        self.process_channel_event(channel_event);
    }
}

} // verus!
