//! The pulse channels: their state, sweep unit and wave duty.

pub mod description;
pub mod sweep;
pub mod wave_pattern_duty;
