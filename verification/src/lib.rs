//! Verified core of a Nintendo Entertainment System emulator: the audio channels, the 6502
//! instruction set, cartridge headers, Game Genie codes, debugger bookkeeping and save framing.
use vstd::prelude::*;

pub mod apu;
pub mod bus;
pub mod cart;
pub mod common;
pub mod control_deck;
pub mod cpu;
pub mod debug;
pub mod error;
pub mod fs;
pub mod genie;
pub mod input;
pub mod patch;

verus! {
} // verus!
