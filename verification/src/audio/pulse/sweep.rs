//! The sweep unit of the first pulse channel: its registers' fields and its timer.

use vstd::prelude::*;

use crate::audio::pulse::description::PulseDescription;
use crate::audio::registers::channel_stoppable::ChannelStopabble;
use crate::audio::registers::frequency_updatable::FrequencyUpdatable;
use crate::audio::sweep::SweepDirection;

verus! {

/// The sweep unit.
#[derive(Copy, Clone, Debug)]
pub struct Sweep {
    pub time: u8,
    pub shifts: u8,
    pub direction: SweepDirection,
    pub timer: u8,
    pub enabled: bool,
    pub shadow_frequency: u16,
    pub calculated: bool,
}

impl Sweep {
    /// The sweep unit a register byte sets up: the shifts in bits 0 to 2, the direction
    /// in bit 3 (set is subtraction), the time in bits 4 to 6; the timer at 0, disabled,
    /// with an empty shadow frequency and nothing calculated.
    pub open spec fn from_register(register: u8) -> Self {
        Sweep {
            time: ((register / 16) % 8) as u8,
            shifts: (register % 8) as u8,
            direction: if (register / 8) % 2 == 1 { SweepDirection::Sub } else { SweepDirection::Add },
            timer: 0,
            enabled: false,
            shadow_frequency: 0,
            calculated: false,
        }
    }

    /// The unit's fields keep the ranges its register gives them: fewer than 8 shifts
    /// and a time below 8.
    pub open spec fn wf(self) -> bool {
        self.shifts < 8 && self.time < 8
    }

    /// The frequency one sweep step gives: the shadow frequency plus or minus itself
    /// shifted right by the number of shifts, wrapping at 16 bits.
    pub open spec fn new_frequency(self) -> u16 {
        let delta = self.shadow_frequency >> self.shifts;
        match self.direction {
            SweepDirection::Add => if self.shadow_frequency + delta > 0xFFFF {
                (self.shadow_frequency + delta - 0x10000) as u16
            } else {
                (self.shadow_frequency + delta) as u16
            },
            SweepDirection::Sub => if self.shadow_frequency - delta < 0 {
                (self.shadow_frequency - delta + 0x10000) as u16
            } else {
                (self.shadow_frequency - delta) as u16
            },
        }
    }

    /// The unit and the channel after a calculation of the next frequency: the unit
    /// notes that it calculated, and the channel stops when that frequency is above 2047.
    pub open spec fn calculate_spec(self, pulse: PulseDescription) -> (Sweep, PulseDescription) {
        (
            Sweep { calculated: true, ..self },
            if self.new_frequency() > 2047 { pulse.stopped() } else { pulse },
        )
    }

    /// The unit and the channel after a write of NR10: shifts, direction and time are
    /// taken from the byte and nothing counts as calculated; the channel stops when a
    /// calculation was made in subtraction and the direction turns to addition.
    pub open spec fn update_from_register_spec(self, register: u8, pulse: PulseDescription) -> (Sweep, PulseDescription) {
        let direction = if (register / 8) % 2 == 1 { SweepDirection::Sub } else { SweepDirection::Add };
        (
            Sweep {
                time: ((register / 16) % 8) as u8,
                shifts: (register % 8) as u8,
                direction,
                calculated: false,
                ..self
            },
            if self.calculated && self.direction == SweepDirection::Sub && direction == SweepDirection::Add {
                pulse.stopped()
            } else {
                pulse
            },
        )
    }

    /// The unit and the channel after the channel is triggered: the shadow frequency
    /// takes the channel's frequency, the timer is reloaded, the unit is enabled when
    /// its time or its shifts are not 0, and with shifts a calculation is made at once.
    pub open spec fn trigger_spec(self, pulse: PulseDescription) -> (Sweep, PulseDescription) {
        let s = Sweep {
            shadow_frequency: pulse.frequency,
            timer: if self.time > 0 { self.time } else { 8 },
            enabled: self.time > 0 || self.shifts > 0,
            ..self
        };
        if s.shifts > 0 { s.calculate_spec(pulse) } else { (s, pulse) }
    }

    /// The unit, the channel and the frequency written back to NR13/NR14 after one of
    /// the sweep's 128 Hz clocks. A running timer counts down; when it reaches 0 it is
    /// reloaded, and an enabled unit with a time calculates the next frequency. When
    /// that is below 2048 and there are shifts, it becomes the shadow frequency and the
    /// channel's frequency, and a second calculation is made from it.
    pub open spec fn step_128_spec(self, pulse: PulseDescription) -> (Sweep, PulseDescription, Option<u16>) {
        if self.timer == 0 {
            (self, pulse, None)
        } else if self.timer > 1 {
            (Sweep { timer: (self.timer - 1) as u8, ..self }, pulse, None)
        } else {
            let s1 = Sweep { timer: if self.time > 0 { self.time } else { 8 }, ..self };
            if s1.enabled && s1.time > 0 {
                let nf = s1.new_frequency();
                let (s2, p2) = s1.calculate_spec(pulse);
                if nf < 2048 && s2.shifts > 0 {
                    let s3 = Sweep { shadow_frequency: nf, ..s2 };
                    let p3 = PulseDescription { frequency: nf, ..p2 };
                    let (s4, p4) = s3.calculate_spec(p3);
                    (s4, p4, Some(nf))
                } else {
                    (s2, p2, None)
                }
            } else {
                (s1, pulse, None)
            }
        }
    }

    /// Takes shifts, direction and time from a write of NR10.
    pub fn update_from_register(&mut self, register: u8, pulse_description: &mut PulseDescription)
        ensures
            (*final(self), *final(pulse_description)) == old(self).update_from_register_spec(register, *old(pulse_description)),
            final(self).wf(),
    {
        proof {
            crate::bits::lemma_byte_bits();
            crate::bits::lemma_sweep_bits();
        }
        let shifts: u8 = register & 0b111u8;
        let time: u8 = (register >> 4u8) & 0b111u8;

        let direction = if register & 0b1000u8 == 0b1000u8 { SweepDirection::Sub } else { SweepDirection::Add };

        if self.calculated && self.direction == SweepDirection::Sub && direction == SweepDirection::Add {
            pulse_description.stop_channel();
        }

        self.time = time;
        self.shifts = shifts;
        self.direction = direction;

        self.calculated = false;
    }

    /// Prepares the unit when its channel is triggered.
    pub fn trigger_control_register_update(&mut self, pulse_description: &mut PulseDescription)
        requires
            old(self).wf(),
        ensures
            (*final(self), *final(pulse_description)) == old(self).trigger_spec(*old(pulse_description)),
            final(self).wf(),
    {
        self.shadow_frequency = pulse_description.get_frequency();
        self.reload_timer();

        self.enabled = self.time > 0 || self.shifts > 0;

        if self.shifts > 0 {
            self.calculate_new_frequency(pulse_description);
        }
    }

    /// One of the sweep's 128 Hz clocks; gives the frequency to write back to NR13/NR14
    /// when the sweep changed it.
    pub fn step_128(&mut self, pulse_description: &mut PulseDescription) -> (written: Option<u16>)
        requires
            old(self).wf(),
        ensures
            (*final(self), *final(pulse_description), written) == old(self).step_128_spec(*old(pulse_description)),
            final(self).wf(),
    {
        if self.timer > 0 {
            self.timer = self.timer - 1;

            if self.timer == 0 {
                self.reload_timer();

                if self.enabled && self.time > 0 {
                    let new_frequency: u16 = self.calculate_new_frequency(pulse_description);

                    if new_frequency < 2048 && self.shifts > 0 {
                        self.shadow_frequency = new_frequency;
                        pulse_description.frequency = new_frequency;

                        self.calculate_new_frequency(pulse_description);
                        return Some(new_frequency);
                    }
                }
            }
        }
        None
    }

    /// Calculates the next frequency from the shadow frequency; stops the channel when
    /// it is above 2047.
    pub fn calculate_new_frequency(&mut self, pulse_description: &mut PulseDescription) -> (r: u16)
        requires
            old(self).wf(),
        ensures
            r == old(self).new_frequency(),
            (*final(self), *final(pulse_description)) == old(self).calculate_spec(*old(pulse_description)),
    {
        self.calculated = true;

        let to_add_sub: u16 = self.shadow_frequency >> self.shifts;

        let new_frequency: u16 = match self.direction {
            SweepDirection::Add => self.shadow_frequency.wrapping_add(to_add_sub),
            SweepDirection::Sub => self.shadow_frequency.wrapping_sub(to_add_sub),
        };

        if new_frequency > 2047 {
            pulse_description.stop_channel();
        }

        new_frequency
    }

    /// Reloads the timer with the time, or with 8 when the time is 0.
    pub fn reload_timer(&mut self)
        ensures
            *final(self) == (Sweep { timer: if old(self).time > 0 { old(self).time } else { 8 }, ..*old(self) }),
    {
        self.timer = if self.time > 0 { self.time } else { 8 };
    }
}

impl From<u8> for Sweep {
    fn from(register: u8) -> (r: Self) {
        proof {
            crate::bits::lemma_byte_bits();
            crate::bits::lemma_sweep_bits();
        }
        let shifts: u8 = register & 0b111u8;
        let time: u8 = (register >> 4u8) & 0b111u8;

        Self {
            time,
            shifts,
            direction: if register & 0b1000u8 == 0b1000u8 { SweepDirection::Sub } else { SweepDirection::Add },
            timer: 0,
            enabled: false,
            shadow_frequency: 0,
            calculated: false,
        }
    }
}

impl vstd::std_specs::convert::FromSpecImpl<u8> for Sweep {
    open spec fn obeys_from_spec() -> bool {
        true
    }

    open spec fn from_spec(register: u8) -> Self {
        Sweep::from_register(register)
    }
}

impl Default for Sweep {
    /// The sweep unit register 0x80 sets up.
    fn default() -> (r: Self)
        ensures
            r == Sweep::from_register(0x80),
    {
        Sweep::from(0x80)
    }
}

} // verus!
