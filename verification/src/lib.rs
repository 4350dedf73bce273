//! Cycle-level model of an 8-bit console: 6502 CPU, picture unit, audio unit,
//! game pad and cartridge mappers, with every state transition specified.

use vstd::prelude::*;

pub mod apu;
pub mod bus;
pub mod cartridge;
pub mod controller;
pub mod cpu;
pub mod emulator;
pub mod error;
pub mod ppu;
pub mod sampler;
pub mod util;
pub mod validity;

verus! {

/// How the scheduler runs the machine.
#[derive(Clone, Copy, Debug, PartialEq, Eq, Structural)]
pub enum State {
    /// Nothing runs.
    Halted,
    /// Frames run one after another.
    Running,
    /// The budget of the frame is used up.
    RestartFrame,
    /// One instruction runs, then the machine halts.
    SingleStep,
    /// Instructions run until the beam starts a new line.
    StepScanline,
    /// Instructions run until the budget of the frame is used up.
    StepFrame,
}

} // verus!
