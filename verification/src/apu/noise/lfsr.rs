//! The 15-bit linear feedback shift register behind the noise channel.

use vstd::prelude::*;

verus! {

/// The register after one step.  The feedback is bit 0 xor bit 1, or bit 0
/// xor bit 6 in the short mode; it enters at bit 14 as the rest moves down.
pub open spec fn stepped(data: u16, mode: bool) -> u16 {
    let other: u16 = if mode {
        (data >> 6) & 1
    } else {
        (data >> 1) & 1
    };
    (data >> 1) | (((data & 1) ^ other) << 14)
}

/// The register after `n` steps.
pub open spec fn stepped_by(data: u16, mode: bool, n: nat) -> u16
    decreases n,
{
    if n == 0 {
        data
    } else {
        stepped(stepped_by(data, mode, (n - 1) as nat), mode)
    }
}

/// The pseudo-random bit source of the noise channel.
#[derive(Clone, Copy, Debug)]
pub struct Lfsr {
    pub data: u16,
}

impl Lfsr {
    /// A register holding 1.
    pub fn new() -> (l: Lfsr)
        ensures
            l.data == 1,
    {
        Lfsr { data: 1 }
    }

    /// One step of the register.
    pub fn tick(&mut self, mode: bool)
        ensures
            final(self).data == stepped(old(self).data, mode),
    {
        let data: u16 = self.data;
        let bit0: u16 = data & 1;
        let other_bit: u16 = if mode {
            (data >> 6) & 1
        } else {
            (data >> 1) & 1
        };
        let feedback: u16 = bit0 ^ other_bit;
        self.data = (self.data >> 1) | (feedback << 14);
    }

    /// Bit 0 of the register; while it is set the channel is silent.
    pub fn output(&self) -> (bit: bool)
        ensures
            bit == (self.data & 1 == 1),
    {
        self.data & 1 == 1
    }
}

} // verus!
