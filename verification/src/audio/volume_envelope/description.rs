//! The state of a volume envelope: the volume it starts from, the volume now, its
//! direction and its period.

use vstd::prelude::*;

use crate::audio::volume_envelope::direction::VolumeEnvelopeDirection;

verus! {

/// A volume envelope.
#[derive(Copy, Clone, Debug)]
pub struct VolumeEnvelopeDescription {
    pub initial_volume: u8,
    pub current_volume: u8,
    pub direction: VolumeEnvelopeDirection,
    pub period: u8,
    pub period_timer: u8,
}

impl VolumeEnvelopeDescription {
    /// The envelope after one of its 64 Hz clocks. A period of 0 stops it. Otherwise
    /// the timer counts down; when it reaches 0 it is reloaded with the period and the
    /// volume moves one step in the envelope's direction, staying within 0 to 15.
    pub open spec fn step_64_spec(self) -> Self {
        if self.period == 0 || self.period_timer == 0 {
            self
        } else if self.period_timer > 1 {
            VolumeEnvelopeDescription { period_timer: (self.period_timer - 1) as u8, ..self }
        } else {
            VolumeEnvelopeDescription {
                period_timer: self.period,
                current_volume: match self.direction {
                    VolumeEnvelopeDirection::Up => if self.current_volume < 0xF {
                        (self.current_volume + 1) as u8
                    } else {
                        self.current_volume
                    },
                    VolumeEnvelopeDirection::Down => if self.current_volume > 0 {
                        (self.current_volume - 1) as u8
                    } else {
                        self.current_volume
                    },
                },
                ..self
            }
        }
    }

    /// The envelope a register byte describes: the initial volume in bits 4 to 7, the
    /// direction in bit 3 (set is up) and the period in bits 0 to 2.
    pub open spec fn from_register(register: u8) -> Self {
        VolumeEnvelopeDescription {
            initial_volume: (register / 16) as u8,
            current_volume: (register / 16) as u8,
            direction: if (register / 8) % 2 == 1 {
                VolumeEnvelopeDirection::Up
            } else {
                VolumeEnvelopeDirection::Down
            },
            period: (register % 8) as u8,
            period_timer: (register % 8) as u8,
        }
    }

    /// An envelope starting at `initial_volume`, its timer at the period.
    pub fn new(initial_volume: u8, direction: VolumeEnvelopeDirection, period: u8) -> (r: Self)
        ensures
            r == (VolumeEnvelopeDescription {
                initial_volume,
                current_volume: initial_volume,
                direction,
                period,
                period_timer: period,
            }),
    {
        Self { initial_volume, current_volume: initial_volume, direction, period, period_timer: period }
    }

    /// Clocks the envelope, at 64 Hz.
    pub fn step_64(&mut self)
        ensures
            *final(self) == old(self).step_64_spec(),
    {
        if self.period == 0 {
            return;
        }

        if self.period_timer != 0 {
            self.period_timer = self.period_timer - 1;

            if self.period_timer == 0 {
                self.period_timer = self.period;

                match self.direction {
                    VolumeEnvelopeDirection::Up => {
                        if self.current_volume < 0xF {
                            self.current_volume = self.current_volume + 1;
                        }
                    },
                    VolumeEnvelopeDirection::Down => {
                        if self.current_volume > 0 {
                            self.current_volume = self.current_volume - 1;
                        }
                    },
                }
            }
        }
    }

    /// Whether the envelope silences its channel: it starts at volume 0 and goes down.
    pub fn is_disabled(&self) -> (r: bool)
        ensures
            r == (self.initial_volume == 0 && self.direction == VolumeEnvelopeDirection::Down),
    {
        self.initial_volume == 0 && self.direction == VolumeEnvelopeDirection::Down
    }
}

/// The envelope never takes the volume outside 0 to 15: a step from a volume within that
/// range stays within it.
pub proof fn law_envelope_volume_bounded(envelope: VolumeEnvelopeDescription)
    requires
        envelope.current_volume <= 15,
    ensures
        envelope.step_64_spec().current_volume <= 15,
        envelope.step_64_spec().period == envelope.period,
{
}

impl Default for VolumeEnvelopeDescription {
    fn default() -> (r: Self)
        ensures
            r == (VolumeEnvelopeDescription {
                initial_volume: 0,
                current_volume: 0,
                direction: VolumeEnvelopeDirection::Up,
                period: 0,
                period_timer: 0,
            }),
    {
        Self {
            initial_volume: 0,
            current_volume: 0,
            direction: VolumeEnvelopeDirection::default(),
            period: 0,
            period_timer: 0,
        }
    }
}

impl VolumeEnvelopeDescription {
    /// The envelope a register byte (NRx2) describes.
    pub fn from(register: u8) -> (r: Self)
        ensures
            r == VolumeEnvelopeDescription::from_register(register),
    {
        proof { crate::bits::lemma_byte_bits(); crate::bits::lemma_sweep_bits(); }
        let initial_volume: u8 = register >> 4u8;
        let period: u8 = register & 0b111u8;

        VolumeEnvelopeDescription {
            initial_volume,
            current_volume: initial_volume,
            direction: VolumeEnvelopeDirection::from(register & 0b1000u8 == 0b1000u8),
            period,
            period_timer: period,
        }
    }
}

} // verus!
