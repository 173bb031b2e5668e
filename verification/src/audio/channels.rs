//! What every sound channel offers the audio unit.

pub mod channel;
