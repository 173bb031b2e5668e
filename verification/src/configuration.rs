//! The emulator's settings: those given at start-up and those that change while it runs.

use vstd::prelude::*;

use crate::cpu::Cpu;

verus! {

/// The settings given at start-up.
pub struct Configuration {
    /// Whether the cartridge header is printed.
    pub debug_header: bool,
    /// The bootstrap ROM to run first, if any.
    pub bootstrap_path: Option<String>,
    /// The cartridge ROM file.
    pub rom_file: String,

    /// How many frames' worth of cycles run per frame.
    pub user_speed_multiplier: i32,
    /// Whether each executed instruction is printed.
    pub trace: bool,
}

/// The settings that change while the emulator runs.
pub struct RuntimeConfig {
    /// How many frames' worth of cycles run per frame.
    pub user_speed_multiplier: i32,
    /// Whether sound is off.
    pub muted: bool,
    /// The processor cycles left in the current frame.
    pub available_cycles: i32,
    /// Whether a reset was asked for.
    pub reset: bool,
    /// Whether debugging output is on.
    pub debug: bool,
}

impl Default for RuntimeConfig {
    fn default() -> (r: Self)
        ensures
            r.user_speed_multiplier == 1,
            !r.muted,
            r.available_cycles == 70221,
            !r.reset,
            !r.debug,
    {
        Self {
            user_speed_multiplier: 1,
            muted: false,
            available_cycles: Cpu::AVAILABLE_CCYCLES_PER_FRAME,
            reset: false,
            debug: false,
        }
    }
}

impl RuntimeConfig {
    /// Switches sound off or back on.
    pub fn toggle_mute(&mut self)
        ensures
            *final(self) == (RuntimeConfig { muted: !old(self).muted, ..*old(self) }),
    {
        self.muted = !self.muted;
    }

    /// Whether a reset was asked for.
    pub fn has_been_reset(&self) -> (r: bool)
        ensures
            r == self.reset,
    {
        self.reset
    }

    /// Records whether a reset is asked for.
    pub fn set_reset(&mut self, value: bool)
        ensures
            *final(self) == (RuntimeConfig { reset: value, ..*old(self) }),
    {
        self.reset = value;
    }

    /// Starts a new frame: the cycles left become a frame's cycles (70221) times the
    /// speed multiplier.
    pub fn reset_available_ccycles(&mut self)
        requires
            i32::MIN <= 70221 * old(self).user_speed_multiplier <= i32::MAX,
        ensures
            *final(self) == (RuntimeConfig {
                available_cycles: (70221 * old(self).user_speed_multiplier) as i32,
                ..*old(self)
            }),
    {
        self.available_cycles = Cpu::AVAILABLE_CCYCLES_PER_FRAME * self.user_speed_multiplier;
    }

    /// Whether cycles are left in the current frame.
    pub fn cpu_has_available_ccycles(&self) -> (r: bool)
        ensures
            r == (self.available_cycles > 0),
    {
        self.available_cycles > 0
    }

    /// Whether debugging output is on.
    pub fn is_debug(&self) -> (r: bool)
        ensures
            r == self.debug,
    {
        self.debug
    }

    /// Switches debugging output on or off.
    pub fn toggle_debug(&mut self)
        ensures
            *final(self) == (RuntimeConfig { debug: !old(self).debug, ..*old(self) }),
    {
        self.debug = !self.debug;
    }
}

} // verus!
