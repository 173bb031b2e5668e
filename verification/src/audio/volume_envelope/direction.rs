//! Whether the envelope raises or lowers the volume.

use vstd::prelude::*;

verus! {

/// The direction a volume envelope moves the volume in.
#[derive(PartialEq, Eq, Structural, Copy, Clone, Debug)]
pub enum VolumeEnvelopeDirection {
    Up,
    Down,
}

impl Default for VolumeEnvelopeDirection {
    fn default() -> (r: Self)
        ensures
            r == VolumeEnvelopeDirection::Up,
    {
        VolumeEnvelopeDirection::Up
    }
}

impl VolumeEnvelopeDirection {
    /// The direction a direction bit gives: set (`true`) is up, clear is down.
    pub fn from(value: bool) -> (r: Self)
        ensures
            r == (if value { VolumeEnvelopeDirection::Up } else { VolumeEnvelopeDirection::Down }),
    {
        match value {
            false => Self::Down,
            true => Self::Up,
        }
    }
}

} // verus!
