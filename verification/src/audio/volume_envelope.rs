//! The volume envelope of the pulse and noise channels.

pub mod description;
pub mod direction;

pub use description::VolumeEnvelopeDescription;
pub use direction::VolumeEnvelopeDirection;
