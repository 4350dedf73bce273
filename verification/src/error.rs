//! The faults the machine reports.

use vstd::prelude::*;

verus! {

/// Why an image was rejected, or why execution cannot go on.
#[derive(Clone, Copy, Debug, PartialEq, Eq, Structural)]
pub enum EmuError {
    /// The image does not start with the four signature bytes.
    BadRomMagic,
    /// The header announces format version 2 or later.
    UnsupportedInesVersion,
    /// The image carries a 512-byte trainer.
    TrainerUnsupported,
    /// The header asks for more than 8 KiB of work RAM.
    PrgRamTooBig,
    /// The image needs a mapper outside the supported six.
    UnsupportedMapper(u8),
    /// The image is shorter than its header announces.
    TruncatedRom,
    /// The processor fetched a byte that is no supported instruction.
    UnimplementedOpcode(u8),
    /// An access reached a bank that the cartridge does not hold.
    BusUnreachable(u16),
}

} // verus!
