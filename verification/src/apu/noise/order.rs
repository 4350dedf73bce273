//! The exact period of the long mode: every content of the register other
//! than zero comes back after 32767 steps and after no fewer.  As 32767 is
//! 7 * 31 * 151, a shorter period would divide 4681, 1057 or 217 steps, and
//! none of these brings any content back.

use vstd::prelude::*;
use vstd::arithmetic::div_mod::{lemma_fundamental_div_mod, lemma_mod_pos_bound};
use crate::apu::noise::lfsr::stepped_by;
use crate::apu::noise::period::{
    column, lemma_long_period, lemma_long_power_0, lemma_long_power_10, lemma_long_power_12,
    lemma_long_power_3, lemma_long_power_4, lemma_long_power_5, lemma_long_power_6,
    lemma_long_power_7, lemma_long_power_9, lemma_steps_add, long_0, long_10, long_12, long_3,
    long_4, long_5, long_6, long_7, long_9,
};

verus! {

/// The register 9 steps later in the long mode.
pub open spec fn long_steps_9(x: u16) -> u16 {
    column(x, 0, 0x0040) ^ column(x, 1, 0x00C0) ^ column(x, 2, 0x0180) ^ column(x, 3, 0x0300) ^ column(x, 4, 0x0600) ^ column(x, 5, 0x0C00) ^ column(x, 6, 0x1800) ^ column(x, 7, 0x3000) ^ column(x, 8, 0x6000) ^ column(x, 9, 0x4001) ^ column(x, 10, 0x0002) ^ column(x, 11, 0x0004) ^ column(x, 12, 0x0008) ^ column(x, 13, 0x0010) ^ column(x, 14, 0x0020)
}

/// The register 73 steps later in the long mode.
pub open spec fn long_steps_73(x: u16) -> u16 {
    column(x, 0, 0x3004) ^ column(x, 1, 0x500C) ^ column(x, 2, 0x2019) ^ column(x, 3, 0x4033) ^ column(x, 4, 0x0066) ^ column(x, 5, 0x00CC) ^ column(x, 6, 0x0198) ^ column(x, 7, 0x0330) ^ column(x, 8, 0x0660) ^ column(x, 9, 0x0CC0) ^ column(x, 10, 0x1980) ^ column(x, 11, 0x3300) ^ column(x, 12, 0x6600) ^ column(x, 13, 0x4C01) ^ column(x, 14, 0x1802)
}

/// The register 585 steps later in the long mode.
pub open spec fn long_steps_585(x: u16) -> u16 {
    column(x, 0, 0x4F31) ^ column(x, 1, 0x5153) ^ column(x, 2, 0x22A6) ^ column(x, 3, 0x454C) ^ column(x, 4, 0x0A99) ^ column(x, 5, 0x1533) ^ column(x, 6, 0x2A67) ^ column(x, 7, 0x54CF) ^ column(x, 8, 0x299E) ^ column(x, 9, 0x533C) ^ column(x, 10, 0x2679) ^ column(x, 11, 0x4CF3) ^ column(x, 12, 0x19E6) ^ column(x, 13, 0x33CC) ^ column(x, 14, 0x6798)
}

/// The register 4681 steps later in the long mode.
pub open spec fn long_steps_4681(x: u16) -> u16 {
    column(x, 0, 0x4C68) ^ column(x, 1, 0x54B9) ^ column(x, 2, 0x2972) ^ column(x, 3, 0x52E4) ^ column(x, 4, 0x25C9) ^ column(x, 5, 0x4B93) ^ column(x, 6, 0x1726) ^ column(x, 7, 0x2E4C) ^ column(x, 8, 0x5C98) ^ column(x, 9, 0x3931) ^ column(x, 10, 0x7263) ^ column(x, 11, 0x64C6) ^ column(x, 12, 0x498D) ^ column(x, 13, 0x131A) ^ column(x, 14, 0x2634)
}

/// The register 33 steps later in the long mode.
pub open spec fn long_steps_33(x: u16) -> u16 {
    column(x, 0, 0x1400) ^ column(x, 1, 0x3C00) ^ column(x, 2, 0x7800) ^ column(x, 3, 0x7001) ^ column(x, 4, 0x6002) ^ column(x, 5, 0x4005) ^ column(x, 6, 0x000A) ^ column(x, 7, 0x0014) ^ column(x, 8, 0x0028) ^ column(x, 9, 0x0050) ^ column(x, 10, 0x00A0) ^ column(x, 11, 0x0140) ^ column(x, 12, 0x0280) ^ column(x, 13, 0x0500) ^ column(x, 14, 0x0A00)
}

/// The register 1057 steps later in the long mode.
pub open spec fn long_steps_1057(x: u16) -> u16 {
    column(x, 0, 0x0E40) ^ column(x, 1, 0x12C0) ^ column(x, 2, 0x2580) ^ column(x, 3, 0x4B00) ^ column(x, 4, 0x1601) ^ column(x, 5, 0x2C03) ^ column(x, 6, 0x5807) ^ column(x, 7, 0x300E) ^ column(x, 8, 0x601C) ^ column(x, 9, 0x4039) ^ column(x, 10, 0x0072) ^ column(x, 11, 0x00E4) ^ column(x, 12, 0x01C8) ^ column(x, 13, 0x0390) ^ column(x, 14, 0x0720)
}

/// The register 25 steps later in the long mode.
pub open spec fn long_steps_25(x: u16) -> u16 {
    column(x, 0, 0x0030) ^ column(x, 1, 0x0050) ^ column(x, 2, 0x00A0) ^ column(x, 3, 0x0140) ^ column(x, 4, 0x0280) ^ column(x, 5, 0x0500) ^ column(x, 6, 0x0A00) ^ column(x, 7, 0x1400) ^ column(x, 8, 0x2800) ^ column(x, 9, 0x5000) ^ column(x, 10, 0x2001) ^ column(x, 11, 0x4003) ^ column(x, 12, 0x0006) ^ column(x, 13, 0x000C) ^ column(x, 14, 0x0018)
}

/// The register 89 steps later in the long mode.
pub open spec fn long_steps_89(x: u16) -> u16 {
    column(x, 0, 0x5403) ^ column(x, 1, 0x7C05) ^ column(x, 2, 0x780A) ^ column(x, 3, 0x7015) ^ column(x, 4, 0x602A) ^ column(x, 5, 0x4055) ^ column(x, 6, 0x00AA) ^ column(x, 7, 0x0154) ^ column(x, 8, 0x02A8) ^ column(x, 9, 0x0550) ^ column(x, 10, 0x0AA0) ^ column(x, 11, 0x1540) ^ column(x, 12, 0x2A80) ^ column(x, 13, 0x5500) ^ column(x, 14, 0x2A01)
}

/// The register 217 steps later in the long mode.
pub open spec fn long_steps_217(x: u16) -> u16 {
    column(x, 0, 0x7E55) ^ column(x, 1, 0x02FF) ^ column(x, 2, 0x05FF) ^ column(x, 3, 0x0BFF) ^ column(x, 4, 0x17FF) ^ column(x, 5, 0x2FFF) ^ column(x, 6, 0x5FFF) ^ column(x, 7, 0x3FFE) ^ column(x, 8, 0x7FFC) ^ column(x, 9, 0x7FF9) ^ column(x, 10, 0x7FF2) ^ column(x, 11, 0x7FE5) ^ column(x, 12, 0x7FCA) ^ column(x, 13, 0x7F95) ^ column(x, 14, 0x7F2A)
}

proof fn lemma_long_product_9(x: u16)
    by (bit_vector)
    requires
        x <= 0x7FFF,
    ensures
        long_3(long_0(x)) == long_steps_9(x),
        long_steps_9(x) <= 0x7FFF,
{
}

proof fn lemma_long_product_73(x: u16)
    by (bit_vector)
    requires
        x <= 0x7FFF,
    ensures
        long_6(long_steps_9(x)) == long_steps_73(x),
        long_steps_73(x) <= 0x7FFF,
{
}

proof fn lemma_long_product_585(x: u16)
    by (bit_vector)
    requires
        x <= 0x7FFF,
    ensures
        long_9(long_steps_73(x)) == long_steps_585(x),
        long_steps_585(x) <= 0x7FFF,
{
}

#[verifier::rlimit(100)]
proof fn lemma_long_product_4681(x: u16)
    by (bit_vector)
    requires
        x <= 0x7FFF,
    ensures
        long_12(long_steps_585(x)) == long_steps_4681(x),
        long_steps_4681(x) <= 0x7FFF,
{
}

proof fn lemma_long_product_33(x: u16)
    by (bit_vector)
    requires
        x <= 0x7FFF,
    ensures
        long_5(long_0(x)) == long_steps_33(x),
        long_steps_33(x) <= 0x7FFF,
{
}

proof fn lemma_long_product_1057(x: u16)
    by (bit_vector)
    requires
        x <= 0x7FFF,
    ensures
        long_10(long_steps_33(x)) == long_steps_1057(x),
        long_steps_1057(x) <= 0x7FFF,
{
}

proof fn lemma_long_product_25(x: u16)
    by (bit_vector)
    requires
        x <= 0x7FFF,
    ensures
        long_4(long_steps_9(x)) == long_steps_25(x),
        long_steps_25(x) <= 0x7FFF,
{
}

proof fn lemma_long_product_89(x: u16)
    by (bit_vector)
    requires
        x <= 0x7FFF,
    ensures
        long_6(long_steps_25(x)) == long_steps_89(x),
        long_steps_89(x) <= 0x7FFF,
{
}

proof fn lemma_long_product_217(x: u16)
    by (bit_vector)
    requires
        x <= 0x7FFF,
    ensures
        long_7(long_steps_89(x)) == long_steps_217(x),
        long_steps_217(x) <= 0x7FFF,
{
}

proof fn lemma_long_quotients_move(x: u16)
    by (bit_vector)
    requires
        1 <= x <= 0x7FFF,
    ensures
        long_steps_4681(x) != x,
        long_steps_1057(x) != x,
        long_steps_217(x) != x,
{
}

proof fn lemma_long_steps_9(x: u16)
    requires
        x <= 0x7FFF,
    ensures
        stepped_by(x, false, 9) == long_steps_9(x),
        long_steps_9(x) <= 0x7FFF,
{
    lemma_long_power_0(x);
    lemma_long_power_3(long_0(x));
    lemma_steps_add(x, false, 1, 8);
    lemma_long_product_9(x);
}

proof fn lemma_long_steps_73(x: u16)
    requires
        x <= 0x7FFF,
    ensures
        stepped_by(x, false, 73) == long_steps_73(x),
        long_steps_73(x) <= 0x7FFF,
{
    lemma_long_steps_9(x);
    lemma_long_power_6(long_steps_9(x));
    lemma_steps_add(x, false, 9, 64);
    lemma_long_product_73(x);
}

proof fn lemma_long_steps_585(x: u16)
    requires
        x <= 0x7FFF,
    ensures
        stepped_by(x, false, 585) == long_steps_585(x),
        long_steps_585(x) <= 0x7FFF,
{
    lemma_long_steps_73(x);
    lemma_long_power_9(long_steps_73(x));
    lemma_steps_add(x, false, 73, 512);
    lemma_long_product_585(x);
}

proof fn lemma_long_steps_4681(x: u16)
    requires
        x <= 0x7FFF,
    ensures
        stepped_by(x, false, 4681) == long_steps_4681(x),
        long_steps_4681(x) <= 0x7FFF,
{
    lemma_long_steps_585(x);
    lemma_long_power_12(long_steps_585(x));
    lemma_steps_add(x, false, 585, 4096);
    lemma_long_product_4681(x);
}

proof fn lemma_long_steps_33(x: u16)
    requires
        x <= 0x7FFF,
    ensures
        stepped_by(x, false, 33) == long_steps_33(x),
        long_steps_33(x) <= 0x7FFF,
{
    lemma_long_power_0(x);
    lemma_long_power_5(long_0(x));
    lemma_steps_add(x, false, 1, 32);
    lemma_long_product_33(x);
}

proof fn lemma_long_steps_1057(x: u16)
    requires
        x <= 0x7FFF,
    ensures
        stepped_by(x, false, 1057) == long_steps_1057(x),
        long_steps_1057(x) <= 0x7FFF,
{
    lemma_long_steps_33(x);
    lemma_long_power_10(long_steps_33(x));
    lemma_steps_add(x, false, 33, 1024);
    lemma_long_product_1057(x);
}

proof fn lemma_long_steps_25(x: u16)
    requires
        x <= 0x7FFF,
    ensures
        stepped_by(x, false, 25) == long_steps_25(x),
        long_steps_25(x) <= 0x7FFF,
{
    lemma_long_steps_9(x);
    lemma_long_power_4(long_steps_9(x));
    lemma_steps_add(x, false, 9, 16);
    lemma_long_product_25(x);
}

proof fn lemma_long_steps_89(x: u16)
    requires
        x <= 0x7FFF,
    ensures
        stepped_by(x, false, 89) == long_steps_89(x),
        long_steps_89(x) <= 0x7FFF,
{
    lemma_long_steps_25(x);
    lemma_long_power_6(long_steps_25(x));
    lemma_steps_add(x, false, 25, 64);
    lemma_long_product_89(x);
}

proof fn lemma_long_steps_217(x: u16)
    requires
        x <= 0x7FFF,
    ensures
        stepped_by(x, false, 217) == long_steps_217(x),
        long_steps_217(x) <= 0x7FFF,
{
    lemma_long_steps_89(x);
    lemma_long_power_7(long_steps_89(x));
    lemma_steps_add(x, false, 89, 128);
    lemma_long_product_217(x);
}

/// Whether `n` steps of the long mode bring the content `x` back.
pub open spec fn comes_back(x: u16, n: nat) -> bool {
    stepped_by(x, false, n) == x
}

/// Every multiple of a number of steps that brings a content back brings it back.
proof fn lemma_multiples_come_back(x: u16, n: nat, k: nat)
    requires
        comes_back(x, n),
    ensures
        comes_back(x, k * n),
    decreases k,
{
    if k > 0 {
        let before = (k - 1) as nat;
        lemma_multiples_come_back(x, n, before);
        assert(k * n == before * n + n) by (nonlinear_arith)
            requires
                before == k - 1,
        ;
        lemma_steps_add(x, false, before * n, n);
    } else {
        assert(k * n == 0) by (nonlinear_arith)
            requires
                k == 0,
        ;
    }
}

/// A proper divisor of 32767 divides 4681, 1057 or 217.
proof fn lemma_proper_divisors(m: u32, q: u32)
    by (bit_vector)
    requires
        1 <= m < 32767,
        q <= 32767,
        m * q == 32767,
    ensures
        4681u32 % m == 0 || 1057u32 % m == 0 || 217u32 % m == 0,
{
}

/// A number of steps that divides a number of steps that does not bring a
/// content back does not bring it back either.
proof fn lemma_divisor_does_not_come_back(x: u16, n: nat, total: nat)
    requires
        n > 0,
        total % n == 0,
        !comes_back(x, total),
    ensures
        !comes_back(x, n),
{
    if comes_back(x, n) {
        let k = total / n;
        lemma_fundamental_div_mod(total as int, n as int);
        lemma_multiples_come_back(x, n, k);
        assert(k * n == total) by (nonlinear_arith)
            requires
                total == n * k,
        ;
    }
}

/// No number of steps below 32767 brings a content other than zero back in
/// the long mode: with `lemma_long_period`, the period is 32767 exactly.
pub proof fn lemma_long_period_is_exact(x: u16, n: nat)
    requires
        1 <= x <= 0x7FFF,
        1 <= n < 32767,
    ensures
        stepped_by(x, false, n) != x,
    decreases n,
{
    if comes_back(x, n) {
        let q = 32767nat / n;
        let r = 32767nat % n;
        lemma_fundamental_div_mod(32767, n as int);
        lemma_mod_pos_bound(32767, n as int);
        assert(q * n + r == 32767 && q <= 32767) by (nonlinear_arith)
            requires
                32767 == n * q + r,
                n >= 1,
                r >= 0,
        ;
        lemma_multiples_come_back(x, n, q);
        lemma_steps_add(x, false, q * n, r);
        lemma_long_period(x);
        assert(comes_back(x, r));
        if r > 0 {
            lemma_long_period_is_exact(x, r);
        } else {
            assert((n as u32) * (q as u32) == 32767) by (nonlinear_arith)
                requires
                    q * n == 32767,
                    n < 32767,
                    q <= 32767,
            ;
            lemma_proper_divisors(n as u32, q as u32);
            lemma_long_steps_4681(x);
            lemma_long_steps_1057(x);
            lemma_long_steps_217(x);
            lemma_long_quotients_move(x);
            if 4681nat % n == 0 {
                lemma_divisor_does_not_come_back(x, n, 4681);
            } else if 1057nat % n == 0 {
                lemma_divisor_does_not_come_back(x, n, 1057);
            } else {
                lemma_divisor_does_not_come_back(x, n, 217);
            }
        }
    }
}

} // verus!
