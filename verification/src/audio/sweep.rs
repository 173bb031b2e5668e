//! The frequency sweep of the first pulse channel, as a register byte describes it.

use vstd::prelude::*;

verus! {

/// Whether the sweep raises or lowers the frequency.
#[derive(PartialEq, Eq, Structural, Copy, Clone, Debug)]
pub enum SweepDirection {
    Add,
    Sub,
}

/// A frequency sweep: its time, its number of shifts, its direction and the time left
/// before its next step.
#[derive(Copy, Clone, Debug)]
pub struct Sweep {
    pub time: u8,
    pub shifts: u8,
    pub direction: SweepDirection,
    pub remaining_time: u8,
}

impl Sweep {
    /// The sweep a register byte describes: the shifts in bits 0 to 2, the direction in
    /// bit 3 (set is subtraction), the time in bits 4 to 6, which is also the time left.
    pub open spec fn from_register(register: u8) -> Self {
        Sweep {
            time: ((register / 16) % 8) as u8,
            shifts: (register % 8) as u8,
            direction: if (register / 8) % 2 == 1 { SweepDirection::Sub } else { SweepDirection::Add },
            remaining_time: ((register / 16) % 8) as u8,
        }
    }
}

impl From<u8> for Sweep {
    fn from(obj: u8) -> (r: Self) {
        proof {
            crate::bits::lemma_byte_bits();
            crate::bits::lemma_sweep_bits();
        }
        let shifts: u8 = obj & 0b111u8;
        let time: u8 = (obj >> 4u8) & 0b111u8;

        Self {
            time,
            shifts,
            direction: if obj & 0b1000u8 == 0b1000u8 { SweepDirection::Sub } else { SweepDirection::Add },
            remaining_time: time,
        }
    }
}

impl vstd::std_specs::convert::FromSpecImpl<u8> for Sweep {
    open spec fn obeys_from_spec() -> bool {
        true
    }

    open spec fn from_spec(obj: u8) -> Self {
        Sweep::from_register(obj)
    }
}

} // verus!
