//! Bit-field extraction on bytes and words, stated arithmetically.

use vstd::prelude::*;

verus! {

/// Two to the power `n`, for the exponents a 16-bit word needs.
pub open spec fn pow2(n: int) -> int {
    if n <= 0 {
        1
    } else if n == 1 {
        2
    } else if n == 2 {
        4
    } else if n == 3 {
        8
    } else if n == 4 {
        16
    } else if n == 5 {
        32
    } else if n == 6 {
        64
    } else if n == 7 {
        128
    } else if n == 8 {
        256
    } else if n == 9 {
        512
    } else if n == 10 {
        1024
    } else if n == 11 {
        2048
    } else if n == 12 {
        4096
    } else if n == 13 {
        8192
    } else if n == 14 {
        16384
    } else if n == 15 {
        32768
    } else {
        65536
    }
}

/// The byte as a mathematical integer.
pub open spec fn byte_value(x: u8) -> int {
    x as int
}

/// Bit `n` of `x`.
pub open spec fn bit_at(x: int, n: int) -> bool {
    (x / pow2(n)) % 2 == 1
}

/// Bits `n..=m` of `x`, moved down to bit 0, for a value of `width` bits.
pub open spec fn field(x: int, n: int, m: int, width: int) -> int {
    if m < n {
        0
    } else if m >= width {
        x / pow2(n)
    } else {
        (x / pow2(n)) % pow2(m - n + 1)
    }
}

/// Bits `n..=m` of `x`, left where they are.
pub open spec fn field_in_place(x: int, n: int, m: int, width: int) -> int {
    field(x, n, m, width) * pow2(n)
}

/// Computes `pow2` for exponents up to 16.
pub fn power_of_two(n: usize) -> (r: u32)
    requires
        n <= 16,
    ensures
        r == pow2(n as int),
        1 <= r <= 65536,
{
    if n == 0 {
        1
    } else if n == 1 {
        2
    } else if n == 2 {
        4
    } else if n == 3 {
        8
    } else if n == 4 {
        16
    } else if n == 5 {
        32
    } else if n == 6 {
        64
    } else if n == 7 {
        128
    } else if n == 8 {
        256
    } else if n == 9 {
        512
    } else if n == 10 {
        1024
    } else if n == 11 {
        2048
    } else if n == 12 {
        4096
    } else if n == 13 {
        8192
    } else if n == 14 {
        16384
    } else if n == 15 {
        32768
    } else {
        65536
    }
}

/// Reading single bits and bit ranges of an unsigned integer.
pub trait Bit: Sized {
    type Output;

    /// Number of bits of the implementing type.
    spec fn width() -> int;

    /// The value as a mathematical integer.
    spec fn value(self) -> int;

    /// The value of an extracted field as a mathematical integer.
    spec fn output_value(out: Self::Output) -> int;

    /// Whether bit `n` is set.
    fn bit(self, n: usize) -> (r: bool)
        requires
            n < Self::width(),
        ensures
            r == bit_at(self.value(), n as int),
    ;

    /// Bits `n..=m`, shifted down to bit 0.
    fn bits(self, n: usize, m: usize) -> (r: Self::Output)
        requires
            n < Self::width(),
            m <= 30,
        ensures
            Self::output_value(r) == field(self.value(), n as int, m as int, Self::width()),
    ;

    /// Bits `n..=m`, all other bits cleared.
    fn bits_abs(self, n: usize, m: usize) -> (r: Self::Output)
        requires
            n <= 30,
            m <= 30,
        ensures
            Self::output_value(r) == if n < Self::width() {
                field_in_place(self.value(), n as int, m as int, Self::width())
            } else {
                0
            },
    ;
}

proof fn lemma_field_bound(x: int, n: int, m: int, width: int)
    requires
        0 <= x < pow2(width),
        0 <= n < width <= 16,
        0 <= m,
    ensures
        0 <= field(x, n, m, width),
        field(x, n, m, width) * pow2(n) <= x,
{
    assert(0 <= x / pow2(n)) by (nonlinear_arith)
        requires 0 <= x, pow2(n) > 0;
    assert((x / pow2(n)) * pow2(n) <= x) by (nonlinear_arith)
        requires 0 <= x, pow2(n) > 0;
    if m >= n && m < width {
        let q = x / pow2(n);
        let d = pow2(m - n + 1);
        assert(0 <= q % d <= q) by (nonlinear_arith)
            requires 0 <= q, d > 0;
        assert((q % d) * pow2(n) <= q * pow2(n)) by (nonlinear_arith)
            requires 0 <= q % d <= q, pow2(n) > 0;
    }
}

/// Whether bit `n` of the byte `x` is set.
pub fn bit8(x: u8, n: usize) -> (r: bool)
    requires
        n < 8,
    ensures
        r == bit_at(x as int, n as int),
{
    let p: u32 = power_of_two(n);
    ((x as u32) / p) % 2 == 1
}

/// Bits `n..=m` of the byte `x`, shifted down to bit 0.
pub fn bits8(x: u8, n: usize, m: usize) -> (r: u8)
    requires
        n < 8,
        m <= 30,
    ensures
        r == field(x as int, n as int, m as int, 8),
{
    if m < n {
        0
    } else {
        let q: u32 = (x as u32) / power_of_two(n);
        proof {
            lemma_field_bound(x as int, n as int, m as int, 8);
        }
        if m >= 8 {
            q as u8
        } else {
            (q % power_of_two(m - n + 1)) as u8
        }
    }
}

/// Bits `n..=m` of the byte `x`, all other bits cleared.
pub fn bits_abs8(x: u8, n: usize, m: usize) -> (r: u8)
    requires
        n <= 30,
        m <= 30,
    ensures
        r == if n < 8 {
            field_in_place(x as int, n as int, m as int, 8)
        } else {
            0
        },
{
    if n >= 8 || m < n {
        0
    } else {
        let f: u8 = bits8(x, n, m);
        proof {
            lemma_field_bound(x as int, n as int, m as int, 8);
        }
        ((f as u32) * power_of_two(n)) as u8
    }
}

/// Whether bit `n` of the word `x` is set.
pub fn bit16(x: u16, n: usize) -> (r: bool)
    requires
        n < 16,
    ensures
        r == bit_at(x as int, n as int),
{
    let p: u32 = power_of_two(n);
    ((x as u32) / p) % 2 == 1
}

/// Bits `n..=m` of the word `x`, shifted down to bit 0.
pub fn bits16(x: u16, n: usize, m: usize) -> (r: u16)
    requires
        n < 16,
        m <= 30,
    ensures
        r == field(x as int, n as int, m as int, 16),
{
    if m < n {
        0
    } else {
        let q: u32 = (x as u32) / power_of_two(n);
        proof {
            lemma_field_bound(x as int, n as int, m as int, 16);
        }
        if m >= 16 {
            q as u16
        } else {
            (q % power_of_two(m - n + 1)) as u16
        }
    }
}

/// Bits `n..=m` of the word `x`, all other bits cleared.
pub fn bits_abs16(x: u16, n: usize, m: usize) -> (r: u16)
    requires
        n <= 30,
        m <= 30,
    ensures
        r == if n < 16 {
            field_in_place(x as int, n as int, m as int, 16)
        } else {
            0
        },
{
    if n >= 16 || m < n {
        0
    } else {
        let f: u16 = bits16(x, n, m);
        proof {
            lemma_field_bound(x as int, n as int, m as int, 16);
        }
        ((f as u32) * power_of_two(n)) as u16
    }
}

impl Bit for u8 {
    type Output = u8;

    open spec fn width() -> int {
        8
    }

    open spec fn value(self) -> int {
        self as int
    }

    open spec fn output_value(out: u8) -> int {
        out as int
    }

    fn bit(self, n: usize) -> (r: bool) {
        bit8(self, n)
    }

    fn bits(self, n: usize, m: usize) -> (r: u8) {
        bits8(self, n, m)
    }

    fn bits_abs(self, n: usize, m: usize) -> (r: u8) {
        bits_abs8(self, n, m)
    }
}

impl Bit for u16 {
    type Output = u16;

    open spec fn width() -> int {
        16
    }

    open spec fn value(self) -> int {
        self as int
    }

    open spec fn output_value(out: u16) -> int {
        out as int
    }

    fn bit(self, n: usize) -> (r: bool) {
        bit16(self, n)
    }

    fn bits(self, n: usize, m: usize) -> (r: u16) {
        bits16(self, n, m)
    }

    fn bits_abs(self, n: usize, m: usize) -> (r: u16) {
        bits_abs16(self, n, m)
    }
}

} // verus!
