//! Mirroring the bits of a pattern byte.

use vstd::prelude::*;
use crate::util::bit::{bit8, bit_at};
use crate::util::{bool_bit, flag_bit};

verus! {

/// The byte `x` with its eight bits in reverse order.
pub open spec fn reversed(x: u8) -> u8 {
    (bool_bit(bit_at(x as int, 0)) * 128 + bool_bit(bit_at(x as int, 1)) * 64 + bool_bit(
        bit_at(x as int, 2),
    ) * 32 + bool_bit(bit_at(x as int, 3)) * 16 + bool_bit(bit_at(x as int, 4)) * 8 + bool_bit(
        bit_at(x as int, 5),
    ) * 4 + bool_bit(bit_at(x as int, 6)) * 2 + bool_bit(bit_at(x as int, 7))) as u8
}

/// Computes `reversed`.
pub fn reverse_bits(x: u8) -> (r: u8)
    ensures
        r == reversed(x),
{
    flag_bit(bit8(x, 0)) * 128 + flag_bit(bit8(x, 1)) * 64 + flag_bit(bit8(x, 2)) * 32 + flag_bit(
        bit8(x, 3),
    ) * 16 + flag_bit(bit8(x, 4)) * 8 + flag_bit(bit8(x, 5)) * 4 + flag_bit(bit8(x, 6)) * 2
        + flag_bit(bit8(x, 7))
}

} // verus!
