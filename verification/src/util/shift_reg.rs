//! Shift registers of a fixed capacity, as the picture unit and the serial
//! mapper port use them.

use vstd::prelude::*;
use crate::util::bit::{bit16, bit8, bit_at, bits_abs16, bits_abs8, field_in_place};
use crate::util::{bool_bit, flag_bit};

verus! {

/// A register of `N` bits held in a `T`; bits enter at position `N - 1` and
/// leave at position 0.
#[derive(Clone, Copy, Debug)]
pub struct ShiftRegister<T, const N: u8> {
    pub data: T,
}

impl<const N: u8> ShiftRegister<u8, N> {
    /// The capacity never exceeds the width of the word that holds the bits.
    pub open spec fn wf(self) -> bool {
        1 <= N <= 8
    }

    pub open spec fn after_push(self, bit: u8) -> Self {
        ShiftRegister { data: (self.data >> 1) | (bit << ((N - 1) as u8)) }
    }

    pub open spec fn after_pop(self) -> Self {
        ShiftRegister { data: self.data / 2 }
    }

    /// The register after bits `i - 1` down to 0 of `value` were pushed in that order.
    pub closed spec fn after_push_bits(self, value: u8, i: int) -> Self
        decreases i,
    {
        if i <= 0 {
            self
        } else {
            self.after_push(bool_bit(bit_at(value as int, i - 1))).after_push_bits(value, i - 1)
        }
    }

    pub closed spec fn after_push_n(self, value: u8, n: u8) -> Self {
        (ShiftRegister::<u8, N> { data: self.data << ((N - n) as u8) }).after_push_bits(
            value,
            n as int,
        )
    }

    /// An empty register.
    pub fn new() -> (r: Self)
        ensures
            r.data == 0,
    {
        ShiftRegister { data: 0 }
    }

    /// Empties the register.
    pub fn clear(&mut self)
        ensures
            final(self).data == 0,
    {
        self.data = 0;
    }

    /// Replaces the whole content.
    pub fn load(&mut self, data: u8)
        ensures
            final(self).data == data,
    {
        self.data = data;
    }

    /// The bit that leaves next.
    pub fn peek(&self) -> (r: u8)
        ensures
            r == self.data % 2,
    {
        self.data % 2
    }

    /// Bits `0..=n` of the content.
    pub fn peek_n(&self, n: u8) -> (r: u8)
        requires
            n <= 30,
        ensures
            r == field_in_place(self.data as int, 0, n as int, 8),
    {
        bits_abs8(self.data, 0, n as usize)
    }

    /// Shifts one bit out; returns bit 1 of the content before the shift.
    pub fn pop(&mut self) -> (r: u8)
        ensures
            *final(self) == old(self).after_pop(),
            r == bool_bit(bit_at(old(self).data as int, 1)),
    {
        let bit: u8 = flag_bit(bit8(self.data, 1));
        self.data = self.data / 2;
        bit
    }

    /// Shifts the content down by one and enters `bit` at the top position.
    pub fn push(&mut self, bit: u8)
        requires
            old(self).wf(),
        ensures
            *final(self) == old(self).after_push(bit),
    {
        self.data = (self.data >> 1) | (bit << (N - 1));
    }

    /// Makes room for `n` bits, then pushes bits `n - 1` down to 0 of `value`.
    pub fn push_n(&mut self, value: u8, n: u8)
        requires
            old(self).wf(),
            n <= N,
            N - n < 8,
        ensures
            *final(self) == old(self).after_push_n(value, n),
    {
        self.data = self.data << (N - n);
        let ghost start = *self;
        let mut i: u8 = n;
        while i > 0
            invariant
                self.wf(),
                i <= n <= 8,
                self.after_push_bits(value, i as int) == start.after_push_bits(value, n as int),
            decreases i,
        {
            let bit: u8 = flag_bit(bit8(value, (i - 1) as usize));
            self.push(bit);
            i = i - 1;
        }
    }

    /// Hands out the content and empties the register.
    pub fn take(&mut self) -> (r: u8)
        ensures
            r == old(self).data,
            final(self).data == 0,
    {
        let data: u8 = self.data;
        self.data = 0;
        data
    }
}

impl<const N: u8> ShiftRegister<u16, N> {
    /// The capacity never exceeds the width of the word that holds the bits.
    pub open spec fn wf(self) -> bool {
        1 <= N <= 16
    }

    pub open spec fn after_push(self, bit: u8) -> Self {
        ShiftRegister { data: (self.data >> 1) | ((bit as u16) << ((N - 1) as u8)) }
    }

    pub open spec fn after_pop(self) -> Self {
        ShiftRegister { data: self.data / 2 }
    }

    /// The register after bits `i - 1` down to 0 of `value` were pushed in that order.
    pub closed spec fn after_push_bits(self, value: u8, i: int) -> Self
        decreases i,
    {
        if i <= 0 {
            self
        } else {
            self.after_push(bool_bit(bit_at(value as int, i - 1))).after_push_bits(value, i - 1)
        }
    }

    pub closed spec fn after_push_n(self, value: u8, n: u8) -> Self {
        (ShiftRegister::<u16, N> { data: self.data << ((N - n) as u8) }).after_push_bits(
            value,
            n as int,
        )
    }

    /// An empty register.
    pub fn new() -> (r: Self)
        ensures
            r.data == 0,
    {
        ShiftRegister { data: 0 }
    }

    /// Empties the register.
    pub fn clear(&mut self)
        ensures
            final(self).data == 0,
    {
        self.data = 0;
    }

    /// Replaces the whole content.
    pub fn load(&mut self, data: u16)
        ensures
            final(self).data == data,
    {
        self.data = data;
    }

    /// The bit that leaves next.
    pub fn peek(&self) -> (r: u8)
        ensures
            r == self.data % 2,
    {
        (self.data % 2) as u8
    }

    /// Bits `0..=n` of the content.
    pub fn peek_n(&self, n: u8) -> (r: u16)
        requires
            n <= 30,
        ensures
            r == field_in_place(self.data as int, 0, n as int, 16),
    {
        bits_abs16(self.data, 0, n as usize)
    }

    /// Shifts one bit out; returns bit 1 of the content before the shift.
    pub fn pop(&mut self) -> (r: u8)
        ensures
            *final(self) == old(self).after_pop(),
            r == bool_bit(bit_at(old(self).data as int, 1)),
    {
        let bit: u8 = flag_bit(bit16(self.data, 1));
        self.data = self.data / 2;
        bit
    }

    /// Shifts the content down by one and enters `bit` at the top position.
    pub fn push(&mut self, bit: u8)
        requires
            old(self).wf(),
        ensures
            *final(self) == old(self).after_push(bit),
    {
        self.data = (self.data >> 1) | ((bit as u16) << (N - 1));
    }

    /// Makes room for `n` bits, then pushes bits `n - 1` down to 0 of `value`.
    pub fn push_n(&mut self, value: u8, n: u8)
        requires
            old(self).wf(),
            n <= N,
            n <= 8,
            N - n < 16,
        ensures
            *final(self) == old(self).after_push_n(value, n),
    {
        self.data = self.data << (N - n);
        let ghost start = *self;
        let mut i: u8 = n;
        while i > 0
            invariant
                self.wf(),
                i <= n <= 8,
                self.after_push_bits(value, i as int) == start.after_push_bits(value, n as int),
            decreases i,
        {
            let bit: u8 = flag_bit(bit8(value, (i - 1) as usize));
            self.push(bit);
            i = i - 1;
        }
    }

    /// Hands out the content and empties the register.
    pub fn take(&mut self) -> (r: u16)
        ensures
            r == old(self).data,
            final(self).data == 0,
    {
        let data: u16 = self.data;
        self.data = 0;
        data
    }
}

} // verus!
