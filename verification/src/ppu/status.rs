//! The status register of the picture unit.

use vstd::prelude::*;
use crate::util::bit::{bit8, bit_at};
use crate::util::{bool_bit, flag_bit};

verus! {

/// The three status flags, reported in bits 7, 6 and 5.
#[derive(Clone, Copy, Debug)]
pub struct Status {
    pub vblank: bool,
    pub spr_0_hit: bool,
    pub spr_overflow: bool,
}

impl Status {
    /// The flags a byte decodes to.
    pub open spec fn decoded(item: u8) -> Status {
        Status {
            vblank: bit_at(item as int, 7),
            spr_0_hit: bit_at(item as int, 6),
            spr_overflow: bit_at(item as int, 5),
        }
    }

    /// The byte the flags encode to; the low five bits are clear.
    pub open spec fn encoded(self) -> u8 {
        (bool_bit(self.vblank) * 128 + bool_bit(self.spr_0_hit) * 64 + bool_bit(self.spr_overflow)
            * 32) as u8
    }

    /// All flags clear.
    pub fn new() -> (s: Status)
        ensures
            s == (Status { vblank: false, spr_0_hit: false, spr_overflow: false }),
    {
        Status { vblank: false, spr_0_hit: false, spr_overflow: false }
    }

    /// Decodes a byte.
    pub fn from_byte(item: u8) -> (s: Status)
        ensures
            s == Status::decoded(item),
    {
        Status { vblank: bit8(item, 7), spr_0_hit: bit8(item, 6), spr_overflow: bit8(item, 5) }
    }

    /// Encodes the flags as a byte.
    pub fn to_byte(self) -> (b: u8)
        ensures
            b == self.encoded(),
    {
        flag_bit(self.vblank) * 128 + flag_bit(self.spr_0_hit) * 64 + flag_bit(self.spr_overflow)
            * 32
    }
}

/// Decoding the encoded flags gives the flags back.
pub proof fn lemma_status_round_trip(s: Status)
    ensures
        Status::decoded(s.encoded()) == s,
{
}

} // verus!
