//! The duty cycle of a pulse channel's square wave.

use vstd::prelude::*;

verus! {

/// The part of each period a pulse channel's output is high.
#[derive(PartialEq, Eq, Structural, Copy, Clone, Debug)]
pub enum PulseWavePatternDuty {
    Percent125,
    Percent25,
    Percent50,
    Percent75,
}

impl PulseWavePatternDuty {
    /// The duty a two-bit code (0 to 3) names.
    pub open spec fn from_code(code: u8) -> Self {
        if code == 0 {
            PulseWavePatternDuty::Percent125
        } else if code == 1 {
            PulseWavePatternDuty::Percent25
        } else if code == 2 {
            PulseWavePatternDuty::Percent50
        } else {
            PulseWavePatternDuty::Percent75
        }
    }

    /// The duty a two-bit code (0 to 3) names: 12.5%, 25%, 50% or 75%.
    pub fn from(wave_duty: u8) -> (r: Self)
        requires
            wave_duty < 4,
        ensures
            r == Self::from_code(wave_duty),
    {
        match wave_duty {
            0b00 => Self::Percent125,
            0b01 => Self::Percent25,
            0b10 => Self::Percent50,
            _ => Self::Percent75,
        }
    }
}

impl Default for PulseWavePatternDuty {
    fn default() -> (r: Self)
        ensures
            r == PulseWavePatternDuty::Percent50,
    {
        Self::Percent50
    }
}

} // verus!
