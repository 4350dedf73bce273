//! The processor status register.

use vstd::prelude::*;
use crate::util::bit::{bit8, bit_at};
use crate::util::{bool_bit, flag_bit};

verus! {

/// The flags, by their bit position in the status byte.
#[derive(Clone, Copy, Debug, PartialEq, Eq, Structural)]
pub enum Flag {
    Carry,
    Zero,
    InterruptDisable,
    Decimal,
    Break,
    Unused,
    Overflow,
    Negative,
}

impl Flag {
    /// The bit position of the flag.
    pub open spec fn position(self) -> int {
        match self {
            Flag::Carry => 0,
            Flag::Zero => 1,
            Flag::InterruptDisable => 2,
            Flag::Decimal => 3,
            Flag::Break => 4,
            Flag::Unused => 5,
            Flag::Overflow => 6,
            Flag::Negative => 7,
        }
    }

    /// Computes `position`.
    pub fn index(self) -> (i: usize)
        ensures
            i == self.position(),
    {
        match self {
            Flag::Carry => 0,
            Flag::Zero => 1,
            Flag::InterruptDisable => 2,
            Flag::Decimal => 3,
            Flag::Break => 4,
            Flag::Unused => 5,
            Flag::Overflow => 6,
            Flag::Negative => 7,
        }
    }
}

/// The eight flags.
#[derive(Clone, Copy, Debug)]
pub struct Status {
    pub flags: [bool; 8],
}

impl Status {
    /// Whether `flag` is set.
    pub open spec fn has(self, flag: Flag) -> bool {
        self.flags[flag.position()]
    }

    /// The register with `flag` set to `value`.
    pub open spec fn with(self, flag: Flag, value: bool) -> Status {
        Status { flags: vstd::array::spec_array_update(self.flags, flag.position(), value) }
    }

    /// The register with the zero and negative flags of the byte `value`.
    pub open spec fn with_zn(self, value: u8) -> Status {
        self.with(Flag::Zero, value == 0).with(Flag::Negative, value >= 128)
    }

    /// The status byte: flag `i` in bit `i`.
    pub open spec fn encoded(self) -> u8 {
        (bool_bit(self.flags[0]) + bool_bit(self.flags[1]) * 2 + bool_bit(self.flags[2]) * 4
            + bool_bit(self.flags[3]) * 8 + bool_bit(self.flags[4]) * 16 + bool_bit(self.flags[5])
            * 32 + bool_bit(self.flags[6]) * 64 + bool_bit(self.flags[7]) * 128) as u8
    }

    /// The register a status byte decodes to.
    pub open spec fn decoded(bits: u8) -> Status {
        Status {
            flags: [
                bit_at(bits as int, 0),
                bit_at(bits as int, 1),
                bit_at(bits as int, 2),
                bit_at(bits as int, 3),
                bit_at(bits as int, 4),
                bit_at(bits as int, 5),
                bit_at(bits as int, 6),
                bit_at(bits as int, 7),
            ],
        }
    }

    /// The register as it is pushed by an instruction: break and bit 5 set.
    pub open spec fn pushed_by_instruction(self) -> u8 {
        self.with(Flag::Break, true).with(Flag::Unused, true).encoded()
    }

    /// The register as it is pushed by an interrupt: bit 5 set, break clear.
    pub open spec fn pushed_by_interrupt(self) -> u8 {
        self.with(Flag::Break, false).with(Flag::Unused, true).encoded()
    }

    /// The register a pulled byte gives: bit 5 forced set, break forced clear.
    pub open spec fn pulled(bits: u8) -> Status {
        Status::decoded(bits).with(Flag::Unused, true).with(Flag::Break, false)
    }

    /// All flags clear but bit 5.
    pub fn new() -> (s: Status)
        ensures
            s.flags@ == seq![false, false, false, false, false, true, false, false],
    {
        Status { flags: [false, false, false, false, false, true, false, false] }
    }

    /// Whether `flag` is set.
    pub fn get(&self, flag: Flag) -> (b: bool)
        ensures
            b == self.has(flag),
    {
        self.flags[flag.index()]
    }

    /// Sets `flag` to `value`.
    pub fn set(&mut self, flag: Flag, value: bool)
        ensures
            *final(self) == old(self).with(flag, value),
    {
        self.flags[flag.index()] = value;
    }

    /// Sets the zero and negative flags from a result byte.
    pub fn set_zn(&mut self, value: u8)
        ensures
            *final(self) == old(self).with_zn(value),
    {
        self.set(Flag::Zero, value == 0);
        self.set(Flag::Negative, value >= 128);
    }

    /// Encodes the register as a byte.
    pub fn to_byte(&self) -> (b: u8)
        ensures
            b == self.encoded(),
    {
        flag_bit(self.flags[0]) + flag_bit(self.flags[1]) * 2 + flag_bit(self.flags[2]) * 4
            + flag_bit(self.flags[3]) * 8 + flag_bit(self.flags[4]) * 16 + flag_bit(self.flags[5])
            * 32 + flag_bit(self.flags[6]) * 64 + flag_bit(self.flags[7]) * 128
    }

    /// Decodes a status byte.
    pub fn from_byte(bits: u8) -> (s: Status)
        ensures
            s == Status::decoded(bits),
    {
        Status {
            flags: [
                bit8(bits, 0),
                bit8(bits, 1),
                bit8(bits, 2),
                bit8(bits, 3),
                bit8(bits, 4),
                bit8(bits, 5),
                bit8(bits, 6),
                bit8(bits, 7),
            ],
        }
    }
}

/// Decoding an encoded register gives the register back.
pub proof fn lemma_status_round_trip(s: Status)
    ensures
        Status::decoded(s.encoded()) == s,
{
    let b = s.encoded();
    assert(bit_at(b as int, 0) == s.flags[0]);
    assert(bit_at(b as int, 1) == s.flags[1]);
    assert(bit_at(b as int, 2) == s.flags[2]);
    assert(bit_at(b as int, 3) == s.flags[3]);
    assert(bit_at(b as int, 4) == s.flags[4]);
    assert(bit_at(b as int, 5) == s.flags[5]);
    assert(bit_at(b as int, 6) == s.flags[6]);
    assert(bit_at(b as int, 7) == s.flags[7]);
    assert(Status::decoded(b).flags =~= s.flags);
}

/// A pulled register always has bit 5 set and the break flag clear, and
/// keeps every other bit of the byte.
pub proof fn lemma_pulled_flags(bits: u8, flag: Flag)
    ensures
        Status::pulled(bits).has(Flag::Unused),
        !Status::pulled(bits).has(Flag::Break),
        flag != Flag::Unused && flag != Flag::Break ==> Status::pulled(bits).has(flag) == bit_at(
            bits as int,
            flag.position(),
        ),
{
}

} // verus!
