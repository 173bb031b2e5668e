//! Channels with a volume envelope.

use vstd::prelude::*;

use crate::audio::volume_envelope::VolumeEnvelopeDescription;

verus! {

/// A channel whose volume envelope can be replaced.
pub trait EnvelopeUpdatable: Sized {
    /// The channel's envelope.
    spec fn envelope_spec(&self) -> VolumeEnvelopeDescription;

    /// The channel with its envelope replaced.
    spec fn with_envelope_spec(&self, envelope: VolumeEnvelopeDescription) -> Self;

    /// Replaces the envelope.
    fn set_envelope(&mut self, envelope: VolumeEnvelopeDescription)
        ensures
            *final(self) == old(self).with_envelope_spec(envelope),
            final(self).envelope_spec() == envelope,
    ;
}

/// A channel that takes writes of its envelope register (NRx2).
pub trait EnvelopeRegisterUpdatable: EnvelopeUpdatable {
    /// Replaces the envelope by the one the register byte describes.
    fn trigger_envelope_register_update(&mut self, register: u8)
        ensures
            *final(self) == old(self).with_envelope_spec(VolumeEnvelopeDescription::from_register(register)),
            final(self).envelope_spec() == VolumeEnvelopeDescription::from_register(register),
    {
        self.set_envelope(VolumeEnvelopeDescription::from(register));
    }
}

} // verus!
