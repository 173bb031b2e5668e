//! The state of a pulse channel: its frequency, duty, envelope, sweep unit and length
//! timer, and the counter of the samples it has produced.

use vstd::prelude::*;

use crate::audio::pulse::sweep::Sweep;
use crate::audio::pulse::wave_pattern_duty::PulseWavePatternDuty;
use crate::audio::registers::channel_stoppable::ChannelStopabble;
use crate::audio::registers::control_updatable::{ControlRegisterUpdatable, ControlUpdatable};
use crate::audio::registers::envelope_updatable::{EnvelopeRegisterUpdatable, EnvelopeUpdatable};
use crate::audio::registers::frequency_updatable::{
    high_part_spec, FrequencyRegisterUpdatable, FrequencyUpdatable,
};
use crate::audio::registers::length_updatable::{LengthRegisterUpdatable, LengthUpdatable};
use crate::audio::volume_envelope::VolumeEnvelopeDescription;

verus! {

/// A pulse channel.
#[derive(Debug)]
pub struct PulseDescription {
    pub set: bool,
    pub frequency: u16,
    pub wave_duty: PulseWavePatternDuty,
    pub volume_envelope: VolumeEnvelopeDescription,
    pub sweep: Option<Sweep>,
    pub stop: bool,
    pub use_length: bool,
    pub length: u8,
    pub remaining_steps: u16,
    pub sample_clock: u64,
}

impl PulseDescription {
    /// The channel's sweep unit, if it has one, keeps its fields' ranges.
    pub open spec fn wf(self) -> bool {
        self.sweep matches Some(s) ==> s.wf()
    }

    /// The channel, stopped.
    pub open spec fn stopped(self) -> Self {
        PulseDescription { stop: true, ..self }
    }

    /// The channel after one of the length timer's 256 Hz clocks: with the length timer
    /// on and steps left, one step is taken, and the channel stops at the last.
    pub open spec fn step_256_spec(self) -> Self {
        if self.use_length && self.remaining_steps > 0 {
            let left = (self.remaining_steps - 1) as u16;
            PulseDescription { remaining_steps: left, stop: if left == 0 { true } else { self.stop }, ..self }
        } else {
            self
        }
    }

    /// The channel and the frequency written back to NR13/NR14 after one of the sweep's
    /// 128 Hz clocks.
    pub open spec fn step_128_spec(self) -> (Self, Option<u16>) {
        match self.sweep {
            Some(s) => {
                let (s2, p2, written) = s.step_128_spec(self);
                (PulseDescription { sweep: Some(s2), ..p2 }, written)
            },
            None => (self, None),
        }
    }

    /// The channel after a write of NR10 reaches its sweep unit.
    pub open spec fn reload_sweep_spec(self, register: u8) -> Self {
        match self.sweep {
            Some(s) => {
                let (s2, p2) = s.update_from_register_spec(register, self);
                PulseDescription { sweep: Some(s2), ..p2 }
            },
            None => self,
        }
    }

    /// A channel with every field at its start value: silent, at frequency 0, 50% duty,
    /// the default envelope, no sweep unit and no length.
    pub fn new() -> (r: Self)
        ensures
            r == (PulseDescription {
                set: false,
                frequency: 0,
                wave_duty: PulseWavePatternDuty::Percent50,
                volume_envelope: r.volume_envelope,
                sweep: None,
                stop: false,
                use_length: false,
                length: 0,
                remaining_steps: 0,
                sample_clock: 0,
            }),
            r.volume_envelope == (VolumeEnvelopeDescription {
                initial_volume: 0,
                current_volume: 0,
                direction: crate::audio::volume_envelope::direction::VolumeEnvelopeDirection::Up,
                period: 0,
                period_timer: 0,
            }),
            r.wf(),
    {
        PulseDescription {
            set: false,
            frequency: 0,
            wave_duty: PulseWavePatternDuty::default(),
            volume_envelope: VolumeEnvelopeDescription::default(),
            sweep: None,
            stop: false,
            use_length: false,
            length: 0,
            remaining_steps: 0,
            sample_clock: 0,
        }
    }

    /// Gives the channel a sweep unit, the one register 0x80 sets up.
    pub fn init_sweep(&mut self)
        ensures
            *final(self) == (PulseDescription { sweep: Some(Sweep::from_register(0x80)), ..*old(self) }),
            final(self).wf(),
    {
        self.sweep = Some(Sweep::default());
    }

    /// One of the sweep's 128 Hz clocks; gives the frequency the sweep wrote, which
    /// belongs in NR13/NR14.
    pub fn step_128(&mut self) -> (written: Option<u16>)
        requires
            old(self).wf(),
        ensures
            (*final(self), written) == old(self).step_128_spec(),
            final(self).wf(),
    {
        match self.sweep {
            Some(s) => {
                let mut sweep = s;
                let written = sweep.step_128(self);
                self.sweep = Some(sweep);
                written
            },
            None => None,
        }
    }

    /// One of the envelope's 64 Hz clocks.
    pub fn step_64(&mut self)
        ensures
            *final(self) == (PulseDescription {
                volume_envelope: old(self).volume_envelope.step_64_spec(),
                ..*old(self)
            }),
    {
        self.volume_envelope.step_64();
    }

    /// One of the length timer's 256 Hz clocks.
    pub fn step_256(&mut self)
        ensures
            *final(self) == old(self).step_256_spec(),
    {
        if self.use_length && self.remaining_steps > 0 {
            self.remaining_steps = self.remaining_steps - 1;

            if self.remaining_steps == 0 {
                self.stop_channel();
            }
        }
    }

    /// Passes a write of NR10 to the sweep unit, if there is one.
    pub fn reload_sweep(&mut self, register: u8)
        requires
            old(self).wf(),
        ensures
            *final(self) == old(self).reload_sweep_spec(register),
            final(self).wf(),
    {
        match self.sweep {
            Some(s) => {
                let mut sweep = s;
                sweep.update_from_register(register, self);
                self.sweep = Some(sweep);
            },
            None => {},
        }
    }

    /// The number of the next sample; the counter moves on by one (wrapping at 2^64).
    pub fn next_sample_clock(&mut self) -> (r: u64)
        ensures
            r == old(self).sample_clock,
            *final(self) == (PulseDescription {
                sample_clock: vstd::wrapping::u64_specs::wrapping_add(old(self).sample_clock, 1),
                ..*old(self)
            }),
    {
        let value: u64 = self.sample_clock;
        self.sample_clock = self.sample_clock.wrapping_add(1);

        value
    }
}

impl Default for PulseDescription {
    fn default() -> (r: Self)
        ensures
            r.wf(),
            r.sweep is None,
            !r.set && !r.stop && !r.use_length,
            r.frequency == 0 && r.length == 0 && r.remaining_steps == 0 && r.sample_clock == 0,
    {
        PulseDescription::new()
    }
}

impl ChannelStopabble for PulseDescription {
    open spec fn stopped_spec(&self) -> Self {
        self.stopped()
    }

    fn stop_channel(&mut self) {
        self.stop = true;
    }
}

impl LengthUpdatable for PulseDescription {
    open spec fn maximum_length_spec() -> u16 {
        64
    }

    open spec fn length_from_register_spec(register: u8) -> u8 {
        (register % 64) as u8
    }

    open spec fn length_spec(&self) -> u8 {
        self.length
    }

    open spec fn remaining_steps_spec(&self) -> u16 {
        self.remaining_steps
    }

    open spec fn with_length_spec(&self, length: u8) -> Self {
        PulseDescription { length, ..*self }
    }

    open spec fn with_remaining_steps_spec(&self, remaining_steps: u16) -> Self {
        PulseDescription { remaining_steps, ..*self }
    }

    fn get_maximum_length() -> (r: u16) {
        64
    }

    fn calculate_length_from_register(register: u8) -> (r: u8) {
        proof { crate::bits::lemma_length_bits(); }
        register & 0b111111u8
    }

    fn set_length(&mut self, length: u8) {
        self.length = length;
    }

    fn get_length(&mut self) -> (r: u8) {
        self.length
    }

    fn set_remaining_steps(&mut self, remaining_steps: u16) {
        self.remaining_steps = remaining_steps;
    }
}

impl LengthRegisterUpdatable for PulseDescription {
    /// The length is the register's low six bits and the steps left are 64 minus it; the
    /// duty takes bits 6 and 7 of that length, which are always 0 (12.5%).
    open spec fn length_register_update_spec(&self, register: u8) -> Self {
        let length = (register % 64) as u8;
        PulseDescription {
            length,
            remaining_steps: (64 - length) as u16,
            wave_duty: PulseWavePatternDuty::from_code(((length / 64) % 4) as u8),
            ..*self
        }
    }

    fn trigger_length_register_update(&mut self, register: u8) {
        proof { crate::bits::lemma_length_bits(); crate::bits::lemma_bank_bits(); }
        self.update_length_from_register(register);

        let length: u8 = self.length;
        let wave_duty: u8 = (length >> 6u8) & 0b11u8;
        assert(wave_duty == (length / 64) % 4) by (bit_vector)
            requires
                wave_duty == (length >> 6u8) & 0b11u8,
        ;
        self.wave_duty = PulseWavePatternDuty::from(wave_duty);
    }
}

impl ControlUpdatable for PulseDescription {
}

impl ControlRegisterUpdatable for PulseDescription {
    open spec fn channel_wf(&self) -> bool {
        self.wf()
    }

    /// The channel restarts: not stopped, triggered by bit 7, its length timer on by bit 6,
    /// its frequency's bits 8 to 10 from bits 0 to 2; its sweep unit is prepared; when
    /// triggered, the sample counter restarts and a spent length timer is reloaded with
    /// 64 steps; a silent envelope stops the channel.
    open spec fn control_register_update_spec(&self, register: u8, next_frame_step_is_length: bool) -> Self {
        let p1 = PulseDescription {
            stop: false,
            set: register >= 128,
            use_length: (register as int / 64) % 2 == 1,
            frequency: high_part_spec(self.frequency, register),
            ..*self
        };
        let p2 = match p1.sweep {
            Some(s) => {
                let (s2, q) = s.trigger_spec(p1);
                PulseDescription { sweep: Some(s2), ..q }
            },
            None => p1,
        };
        let p3 = if p2.set {
            PulseDescription {
                sample_clock: 0,
                remaining_steps: if p2.remaining_steps == 0 { 64 } else { p2.remaining_steps },
                ..p2
            }
        } else {
            p2
        };
        if p3.volume_envelope.initial_volume == 0
            && p3.volume_envelope.direction == crate::audio::volume_envelope::direction::VolumeEnvelopeDirection::Down {
            p3.stopped()
        } else {
            p3
        }
    }

    fn trigger_control_register_update(&mut self, register: u8, next_frame_step_is_length: bool) {
        self.stop = false;

        self.set = Self::calculate_initial_from_register(register);
        self.use_length = Self::calculate_use_length_from_register(register);

        self.set_high_part_from_register(register);

        match self.sweep {
            Some(s) => {
                let mut sweep = s;
                sweep.trigger_control_register_update(self);
                self.sweep = Some(sweep);
            },
            None => {},
        }

        if self.set {
            self.sample_clock = 0;

            if self.remaining_steps == 0 {
                self.set_remaining_steps(Self::get_maximum_length());
            }
        }

        if self.volume_envelope.is_disabled() {
            self.stop_channel();
        }
    }
}

impl EnvelopeUpdatable for PulseDescription {
    open spec fn envelope_spec(&self) -> VolumeEnvelopeDescription {
        self.volume_envelope
    }

    open spec fn with_envelope_spec(&self, envelope: VolumeEnvelopeDescription) -> Self {
        PulseDescription { volume_envelope: envelope, ..*self }
    }

    fn set_envelope(&mut self, envelope: VolumeEnvelopeDescription) {
        self.volume_envelope = envelope;
    }
}

impl EnvelopeRegisterUpdatable for PulseDescription {
}

impl FrequencyUpdatable for PulseDescription {
    open spec fn frequency_spec(&self) -> u16 {
        self.frequency
    }

    open spec fn with_frequency_spec(&self, frequency: u16) -> Self {
        PulseDescription { frequency, ..*self }
    }

    fn set_frequency(&mut self, frequency: u16) {
        self.frequency = frequency;
    }

    fn get_frequency(&self) -> (r: u16) {
        self.frequency
    }
}

impl FrequencyRegisterUpdatable for PulseDescription {
}

} // verus!
