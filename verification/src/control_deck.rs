//! What the control deck reports: the errors its operations give, what clocking a frame did,
//! and the ROM it has loaded.
use vstd::prelude::*;

use crate::common::NesRegion;
use crate::cpu::disasm::StateMismatch;
use crate::{cart, fs, genie};

verus! {

/// Errors the control deck's operations give.
#[derive(Debug)]
pub enum Error {
    /// Loading a ROM failed.
    Cart(cart::Error),
    /// Battery-backed RAM error.
    Sram(fs::Error),
    /// Save state error.
    SaveState(fs::Error),
    /// When trying to load a save state that doesn't exist.
    NoSaveStateFound,
    /// Operational error indicating a ROM must be loaded first.
    RomNotLoaded,
    /// CPU state is corrupted and emulation can't continue.
    CpuCorrupted,
    /// Invalid Game Genie code error.
    InvalidGenieCode(genie::Error),
    /// Invalid file path.
    InvalidFilePath(std::path::PathBuf),
    /// The ROM's mapper number has no board implementation.
    UnimplementedMapper(u16),
    /// A save state that does not belong to the loaded cart.
    StateMismatch(StateMismatch),
    /// Filesystem error.
    Fs(fs::Error),
    /// IO error.
    Io {
        /// What was being done when this happened.
        context: String,
        /// The underlying I/O error.
        source: std::io::Error,
    },
}

impl Error {
    /// Wraps an I/O error with a description of what was being done.
    pub fn io(source: std::io::Error, context: String) -> (e: Self)
        ensures
            e matches Error::Io { context: c, .. } && c@ == context@,
    {
        Error::Io { context, source }
    }
}

/// What clocking a frame did.
#[derive(Debug, Copy, Clone, PartialEq, Eq, Structural)]
pub enum Clocked {
    /// Clocked a frame; this display frame owes at least one more. Call again.
    Continue,
    /// Clocked a frame, and it was the last one this display frame owed.
    Complete,
    /// Clocked nothing: this display frame owed none. Only reachable below 1x speed.
    Idle,
}

/// A loaded ROM cartridge, as the deck reports it.
#[derive(Debug, Clone, PartialEq, Eq)]
pub struct LoadedRom {
    /// Name of ROM.
    pub name: String,
    /// Whether the loaded cart is battery-backed.
    pub battery_backed: bool,
    /// Auto-detected region of the loaded cart.
    pub region: NesRegion,
}

} // verus!
