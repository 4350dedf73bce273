//! The periods of the shift register: 32767 steps in the long mode, 93 or a
//! divisor of 93 in the short mode.

use vstd::prelude::*;
use crate::apu::noise::lfsr::{stepped, stepped_by};

verus! {

/// `c` if bit `i` of `x` is set, else 0.
pub open spec fn column(x: u16, i: u16, c: u16) -> u16 {
    if (x >> i) & 1 == 1 {
        c
    } else {
        0
    }
}

/// The register 2^0 steps later in the long mode, as the exclusive or of one word per set bit.
pub open spec fn long_0(x: u16) -> u16 {
    column(x, 0, 0x4000) ^ column(x, 1, 0x4001) ^ column(x, 2, 0x0002) ^ column(x, 3, 0x0004) ^ column(x, 4, 0x0008) ^ column(x, 5, 0x0010) ^ column(x, 6, 0x0020) ^ column(x, 7, 0x0040) ^ column(x, 8, 0x0080) ^ column(x, 9, 0x0100) ^ column(x, 10, 0x0200) ^ column(x, 11, 0x0400) ^ column(x, 12, 0x0800) ^ column(x, 13, 0x1000) ^ column(x, 14, 0x2000)
}

/// The register 2^1 steps later in the long mode, as the exclusive or of one word per set bit.
pub open spec fn long_1(x: u16) -> u16 {
    column(x, 0, 0x2000) ^ column(x, 1, 0x6000) ^ column(x, 2, 0x4001) ^ column(x, 3, 0x0002) ^ column(x, 4, 0x0004) ^ column(x, 5, 0x0008) ^ column(x, 6, 0x0010) ^ column(x, 7, 0x0020) ^ column(x, 8, 0x0040) ^ column(x, 9, 0x0080) ^ column(x, 10, 0x0100) ^ column(x, 11, 0x0200) ^ column(x, 12, 0x0400) ^ column(x, 13, 0x0800) ^ column(x, 14, 0x1000)
}

/// The register 2^2 steps later in the long mode, as the exclusive or of one word per set bit.
pub open spec fn long_2(x: u16) -> u16 {
    column(x, 0, 0x0800) ^ column(x, 1, 0x1800) ^ column(x, 2, 0x3000) ^ column(x, 3, 0x6000) ^ column(x, 4, 0x4001) ^ column(x, 5, 0x0002) ^ column(x, 6, 0x0004) ^ column(x, 7, 0x0008) ^ column(x, 8, 0x0010) ^ column(x, 9, 0x0020) ^ column(x, 10, 0x0040) ^ column(x, 11, 0x0080) ^ column(x, 12, 0x0100) ^ column(x, 13, 0x0200) ^ column(x, 14, 0x0400)
}

/// The register 2^3 steps later in the long mode, as the exclusive or of one word per set bit.
pub open spec fn long_3(x: u16) -> u16 {
    column(x, 0, 0x0080) ^ column(x, 1, 0x0180) ^ column(x, 2, 0x0300) ^ column(x, 3, 0x0600) ^ column(x, 4, 0x0C00) ^ column(x, 5, 0x1800) ^ column(x, 6, 0x3000) ^ column(x, 7, 0x6000) ^ column(x, 8, 0x4001) ^ column(x, 9, 0x0002) ^ column(x, 10, 0x0004) ^ column(x, 11, 0x0008) ^ column(x, 12, 0x0010) ^ column(x, 13, 0x0020) ^ column(x, 14, 0x0040)
}

/// The register 2^4 steps later in the long mode, as the exclusive or of one word per set bit.
pub open spec fn long_4(x: u16) -> u16 {
    column(x, 0, 0x6000) ^ column(x, 1, 0x2001) ^ column(x, 2, 0x4003) ^ column(x, 3, 0x0006) ^ column(x, 4, 0x000C) ^ column(x, 5, 0x0018) ^ column(x, 6, 0x0030) ^ column(x, 7, 0x0060) ^ column(x, 8, 0x00C0) ^ column(x, 9, 0x0180) ^ column(x, 10, 0x0300) ^ column(x, 11, 0x0600) ^ column(x, 12, 0x0C00) ^ column(x, 13, 0x1800) ^ column(x, 14, 0x3000)
}

/// The register 2^5 steps later in the long mode, as the exclusive or of one word per set bit.
pub open spec fn long_5(x: u16) -> u16 {
    column(x, 0, 0x2800) ^ column(x, 1, 0x7800) ^ column(x, 2, 0x7001) ^ column(x, 3, 0x6002) ^ column(x, 4, 0x4005) ^ column(x, 5, 0x000A) ^ column(x, 6, 0x0014) ^ column(x, 7, 0x0028) ^ column(x, 8, 0x0050) ^ column(x, 9, 0x00A0) ^ column(x, 10, 0x0140) ^ column(x, 11, 0x0280) ^ column(x, 12, 0x0500) ^ column(x, 13, 0x0A00) ^ column(x, 14, 0x1400)
}

/// The register 2^6 steps later in the long mode, as the exclusive or of one word per set bit.
pub open spec fn long_6(x: u16) -> u16 {
    column(x, 0, 0x0880) ^ column(x, 1, 0x1980) ^ column(x, 2, 0x3300) ^ column(x, 3, 0x6600) ^ column(x, 4, 0x4C01) ^ column(x, 5, 0x1802) ^ column(x, 6, 0x3004) ^ column(x, 7, 0x6008) ^ column(x, 8, 0x4011) ^ column(x, 9, 0x0022) ^ column(x, 10, 0x0044) ^ column(x, 11, 0x0088) ^ column(x, 12, 0x0110) ^ column(x, 13, 0x0220) ^ column(x, 14, 0x0440)
}

/// The register 2^7 steps later in the long mode, as the exclusive or of one word per set bit.
pub open spec fn long_7(x: u16) -> u16 {
    column(x, 0, 0x6080) ^ column(x, 1, 0x2181) ^ column(x, 2, 0x4303) ^ column(x, 3, 0x0606) ^ column(x, 4, 0x0C0C) ^ column(x, 5, 0x1818) ^ column(x, 6, 0x3030) ^ column(x, 7, 0x6060) ^ column(x, 8, 0x40C1) ^ column(x, 9, 0x0182) ^ column(x, 10, 0x0304) ^ column(x, 11, 0x0608) ^ column(x, 12, 0x0C10) ^ column(x, 13, 0x1820) ^ column(x, 14, 0x3040)
}

/// The register 2^8 steps later in the long mode, as the exclusive or of one word per set bit.
pub open spec fn long_8(x: u16) -> u16 {
    column(x, 0, 0x4800) ^ column(x, 1, 0x5801) ^ column(x, 2, 0x3002) ^ column(x, 3, 0x6004) ^ column(x, 4, 0x4009) ^ column(x, 5, 0x0012) ^ column(x, 6, 0x0024) ^ column(x, 7, 0x0048) ^ column(x, 8, 0x0090) ^ column(x, 9, 0x0120) ^ column(x, 10, 0x0240) ^ column(x, 11, 0x0480) ^ column(x, 12, 0x0900) ^ column(x, 13, 0x1200) ^ column(x, 14, 0x2400)
}

/// The register 2^9 steps later in the long mode, as the exclusive or of one word per set bit.
pub open spec fn long_9(x: u16) -> u16 {
    column(x, 0, 0x2080) ^ column(x, 1, 0x6180) ^ column(x, 2, 0x4301) ^ column(x, 3, 0x0602) ^ column(x, 4, 0x0C04) ^ column(x, 5, 0x1808) ^ column(x, 6, 0x3010) ^ column(x, 7, 0x6020) ^ column(x, 8, 0x4041) ^ column(x, 9, 0x0082) ^ column(x, 10, 0x0104) ^ column(x, 11, 0x0208) ^ column(x, 12, 0x0410) ^ column(x, 13, 0x0820) ^ column(x, 14, 0x1040)
}

/// The register 2^10 steps later in the long mode, as the exclusive or of one word per set bit.
pub open spec fn long_10(x: u16) -> u16 {
    column(x, 0, 0x6800) ^ column(x, 1, 0x3801) ^ column(x, 2, 0x7003) ^ column(x, 3, 0x6006) ^ column(x, 4, 0x400D) ^ column(x, 5, 0x001A) ^ column(x, 6, 0x0034) ^ column(x, 7, 0x0068) ^ column(x, 8, 0x00D0) ^ column(x, 9, 0x01A0) ^ column(x, 10, 0x0340) ^ column(x, 11, 0x0680) ^ column(x, 12, 0x0D00) ^ column(x, 13, 0x1A00) ^ column(x, 14, 0x3400)
}

/// The register 2^11 steps later in the long mode, as the exclusive or of one word per set bit.
pub open spec fn long_11(x: u16) -> u16 {
    column(x, 0, 0x2880) ^ column(x, 1, 0x7980) ^ column(x, 2, 0x7301) ^ column(x, 3, 0x6602) ^ column(x, 4, 0x4C05) ^ column(x, 5, 0x180A) ^ column(x, 6, 0x3014) ^ column(x, 7, 0x6028) ^ column(x, 8, 0x4051) ^ column(x, 9, 0x00A2) ^ column(x, 10, 0x0144) ^ column(x, 11, 0x0288) ^ column(x, 12, 0x0510) ^ column(x, 13, 0x0A20) ^ column(x, 14, 0x1440)
}

/// The register 2^12 steps later in the long mode, as the exclusive or of one word per set bit.
pub open spec fn long_12(x: u16) -> u16 {
    column(x, 0, 0x6880) ^ column(x, 1, 0x3981) ^ column(x, 2, 0x7303) ^ column(x, 3, 0x6606) ^ column(x, 4, 0x4C0D) ^ column(x, 5, 0x181A) ^ column(x, 6, 0x3034) ^ column(x, 7, 0x6068) ^ column(x, 8, 0x40D1) ^ column(x, 9, 0x01A2) ^ column(x, 10, 0x0344) ^ column(x, 11, 0x0688) ^ column(x, 12, 0x0D10) ^ column(x, 13, 0x1A20) ^ column(x, 14, 0x3440)
}

/// The register 2^13 steps later in the long mode, as the exclusive or of one word per set bit.
pub open spec fn long_13(x: u16) -> u16 {
    column(x, 0, 0x4880) ^ column(x, 1, 0x5981) ^ column(x, 2, 0x3302) ^ column(x, 3, 0x6604) ^ column(x, 4, 0x4C09) ^ column(x, 5, 0x1812) ^ column(x, 6, 0x3024) ^ column(x, 7, 0x6048) ^ column(x, 8, 0x4091) ^ column(x, 9, 0x0122) ^ column(x, 10, 0x0244) ^ column(x, 11, 0x0488) ^ column(x, 12, 0x0910) ^ column(x, 13, 0x1220) ^ column(x, 14, 0x2440)
}

/// The register 2^14 steps later in the long mode, as the exclusive or of one word per set bit.
pub open spec fn long_14(x: u16) -> u16 {
    column(x, 0, 0x4080) ^ column(x, 1, 0x4181) ^ column(x, 2, 0x0302) ^ column(x, 3, 0x0604) ^ column(x, 4, 0x0C08) ^ column(x, 5, 0x1810) ^ column(x, 6, 0x3020) ^ column(x, 7, 0x6040) ^ column(x, 8, 0x4081) ^ column(x, 9, 0x0102) ^ column(x, 10, 0x0204) ^ column(x, 11, 0x0408) ^ column(x, 12, 0x0810) ^ column(x, 13, 0x1020) ^ column(x, 14, 0x2040)
}

/// The register 2^15 steps later in the long mode, as the exclusive or of one word per set bit.
pub open spec fn long_15(x: u16) -> u16 {
    column(x, 0, 0x4000) ^ column(x, 1, 0x4001) ^ column(x, 2, 0x0002) ^ column(x, 3, 0x0004) ^ column(x, 4, 0x0008) ^ column(x, 5, 0x0010) ^ column(x, 6, 0x0020) ^ column(x, 7, 0x0040) ^ column(x, 8, 0x0080) ^ column(x, 9, 0x0100) ^ column(x, 10, 0x0200) ^ column(x, 11, 0x0400) ^ column(x, 12, 0x0800) ^ column(x, 13, 0x1000) ^ column(x, 14, 0x2000)
}

/// The register 2^0 steps later in the short mode, as the exclusive or of one word per set bit.
pub open spec fn short_0(x: u16) -> u16 {
    column(x, 0, 0x4000) ^ column(x, 1, 0x0001) ^ column(x, 2, 0x0002) ^ column(x, 3, 0x0004) ^ column(x, 4, 0x0008) ^ column(x, 5, 0x0010) ^ column(x, 6, 0x4020) ^ column(x, 7, 0x0040) ^ column(x, 8, 0x0080) ^ column(x, 9, 0x0100) ^ column(x, 10, 0x0200) ^ column(x, 11, 0x0400) ^ column(x, 12, 0x0800) ^ column(x, 13, 0x1000) ^ column(x, 14, 0x2000)
}

/// The register 2^1 steps later in the short mode, as the exclusive or of one word per set bit.
pub open spec fn short_1(x: u16) -> u16 {
    column(x, 0, 0x2000) ^ column(x, 1, 0x4000) ^ column(x, 2, 0x0001) ^ column(x, 3, 0x0002) ^ column(x, 4, 0x0004) ^ column(x, 5, 0x0008) ^ column(x, 6, 0x2010) ^ column(x, 7, 0x4020) ^ column(x, 8, 0x0040) ^ column(x, 9, 0x0080) ^ column(x, 10, 0x0100) ^ column(x, 11, 0x0200) ^ column(x, 12, 0x0400) ^ column(x, 13, 0x0800) ^ column(x, 14, 0x1000)
}

/// The register 2^2 steps later in the short mode, as the exclusive or of one word per set bit.
pub open spec fn short_2(x: u16) -> u16 {
    column(x, 0, 0x0800) ^ column(x, 1, 0x1000) ^ column(x, 2, 0x2000) ^ column(x, 3, 0x4000) ^ column(x, 4, 0x0001) ^ column(x, 5, 0x0002) ^ column(x, 6, 0x0804) ^ column(x, 7, 0x1008) ^ column(x, 8, 0x2010) ^ column(x, 9, 0x4020) ^ column(x, 10, 0x0040) ^ column(x, 11, 0x0080) ^ column(x, 12, 0x0100) ^ column(x, 13, 0x0200) ^ column(x, 14, 0x0400)
}

/// The register 2^3 steps later in the short mode, as the exclusive or of one word per set bit.
pub open spec fn short_3(x: u16) -> u16 {
    column(x, 0, 0x0080) ^ column(x, 1, 0x0100) ^ column(x, 2, 0x0200) ^ column(x, 3, 0x0400) ^ column(x, 4, 0x0800) ^ column(x, 5, 0x1000) ^ column(x, 6, 0x2080) ^ column(x, 7, 0x4100) ^ column(x, 8, 0x0201) ^ column(x, 9, 0x0402) ^ column(x, 10, 0x0804) ^ column(x, 11, 0x1008) ^ column(x, 12, 0x2010) ^ column(x, 13, 0x4020) ^ column(x, 14, 0x0040)
}

/// The register 2^4 steps later in the short mode, as the exclusive or of one word per set bit.
pub open spec fn short_4(x: u16) -> u16 {
    column(x, 0, 0x4100) ^ column(x, 1, 0x0201) ^ column(x, 2, 0x0402) ^ column(x, 3, 0x0804) ^ column(x, 4, 0x1008) ^ column(x, 5, 0x2010) ^ column(x, 6, 0x0120) ^ column(x, 7, 0x0241) ^ column(x, 8, 0x0482) ^ column(x, 9, 0x0904) ^ column(x, 10, 0x1208) ^ column(x, 11, 0x2410) ^ column(x, 12, 0x4820) ^ column(x, 13, 0x1040) ^ column(x, 14, 0x2080)
}

/// The register 2^5 steps later in the short mode, as the exclusive or of one word per set bit.
pub open spec fn short_5(x: u16) -> u16 {
    column(x, 0, 0x2402) ^ column(x, 1, 0x4804) ^ column(x, 2, 0x1009) ^ column(x, 3, 0x2012) ^ column(x, 4, 0x4024) ^ column(x, 5, 0x0048) ^ column(x, 6, 0x2492) ^ column(x, 7, 0x4924) ^ column(x, 8, 0x1248) ^ column(x, 9, 0x2490) ^ column(x, 10, 0x4920) ^ column(x, 11, 0x1240) ^ column(x, 12, 0x2480) ^ column(x, 13, 0x4900) ^ column(x, 14, 0x1201)
}

/// The register 2^6 steps later in the short mode, as the exclusive or of one word per set bit.
pub open spec fn short_6(x: u16) -> u16 {
    column(x, 0, 0x4824) ^ column(x, 1, 0x1048) ^ column(x, 2, 0x2090) ^ column(x, 3, 0x4120) ^ column(x, 4, 0x0240) ^ column(x, 5, 0x0480) ^ column(x, 6, 0x4124) ^ column(x, 7, 0x0248) ^ column(x, 8, 0x0490) ^ column(x, 9, 0x0920) ^ column(x, 10, 0x1241) ^ column(x, 11, 0x2482) ^ column(x, 12, 0x4904) ^ column(x, 13, 0x1209) ^ column(x, 14, 0x2412)
}

proof fn lemma_long_base(x: u16)
    by (bit_vector)
    requires
        x <= 0x7FFF,
    ensures
        stepped(x, false) == long_0(x),
        long_0(x) <= 0x7FFF,
{
}

proof fn lemma_short_base(x: u16)
    by (bit_vector)
    requires
        x <= 0x7FFF,
    ensures
        stepped(x, true) == short_0(x),
        short_0(x) <= 0x7FFF,
{
}

proof fn lemma_long_square_0(x: u16)
    by (bit_vector)
    requires
        x <= 0x7FFF,
    ensures
        long_1(x) == long_0(long_0(x)),
        long_1(x) <= 0x7FFF,
{
}

proof fn lemma_long_square_1(x: u16)
    by (bit_vector)
    requires
        x <= 0x7FFF,
    ensures
        long_2(x) == long_1(long_1(x)),
        long_2(x) <= 0x7FFF,
{
}

proof fn lemma_long_square_2(x: u16)
    by (bit_vector)
    requires
        x <= 0x7FFF,
    ensures
        long_3(x) == long_2(long_2(x)),
        long_3(x) <= 0x7FFF,
{
}

proof fn lemma_long_square_3(x: u16)
    by (bit_vector)
    requires
        x <= 0x7FFF,
    ensures
        long_4(x) == long_3(long_3(x)),
        long_4(x) <= 0x7FFF,
{
}

proof fn lemma_long_square_4(x: u16)
    by (bit_vector)
    requires
        x <= 0x7FFF,
    ensures
        long_5(x) == long_4(long_4(x)),
        long_5(x) <= 0x7FFF,
{
}

proof fn lemma_long_square_5(x: u16)
    by (bit_vector)
    requires
        x <= 0x7FFF,
    ensures
        long_6(x) == long_5(long_5(x)),
        long_6(x) <= 0x7FFF,
{
}

proof fn lemma_long_square_6(x: u16)
    by (bit_vector)
    requires
        x <= 0x7FFF,
    ensures
        long_7(x) == long_6(long_6(x)),
        long_7(x) <= 0x7FFF,
{
}

proof fn lemma_long_square_7(x: u16)
    by (bit_vector)
    requires
        x <= 0x7FFF,
    ensures
        long_8(x) == long_7(long_7(x)),
        long_8(x) <= 0x7FFF,
{
}

proof fn lemma_long_square_8(x: u16)
    by (bit_vector)
    requires
        x <= 0x7FFF,
    ensures
        long_9(x) == long_8(long_8(x)),
        long_9(x) <= 0x7FFF,
{
}

proof fn lemma_long_square_9(x: u16)
    by (bit_vector)
    requires
        x <= 0x7FFF,
    ensures
        long_10(x) == long_9(long_9(x)),
        long_10(x) <= 0x7FFF,
{
}

proof fn lemma_long_square_10(x: u16)
    by (bit_vector)
    requires
        x <= 0x7FFF,
    ensures
        long_11(x) == long_10(long_10(x)),
        long_11(x) <= 0x7FFF,
{
}

proof fn lemma_long_square_11(x: u16)
    by (bit_vector)
    requires
        x <= 0x7FFF,
    ensures
        long_12(x) == long_11(long_11(x)),
        long_12(x) <= 0x7FFF,
{
}

#[verifier::rlimit(80)]
proof fn lemma_long_square_12(x: u16)
    by (bit_vector)
    requires
        x <= 0x7FFF,
    ensures
        long_13(x) == long_12(long_12(x)),
        long_13(x) <= 0x7FFF,
{
}

proof fn lemma_long_square_13(x: u16)
    by (bit_vector)
    requires
        x <= 0x7FFF,
    ensures
        long_14(x) == long_13(long_13(x)),
        long_14(x) <= 0x7FFF,
{
}

proof fn lemma_long_square_14(x: u16)
    by (bit_vector)
    requires
        x <= 0x7FFF,
    ensures
        long_15(x) == long_14(long_14(x)),
        long_15(x) <= 0x7FFF,
{
}

proof fn lemma_short_square_0(x: u16)
    by (bit_vector)
    requires
        x <= 0x7FFF,
    ensures
        short_1(x) == short_0(short_0(x)),
        short_1(x) <= 0x7FFF,
{
}

proof fn lemma_short_square_1(x: u16)
    by (bit_vector)
    requires
        x <= 0x7FFF,
    ensures
        short_2(x) == short_1(short_1(x)),
        short_2(x) <= 0x7FFF,
{
}

proof fn lemma_short_square_2(x: u16)
    by (bit_vector)
    requires
        x <= 0x7FFF,
    ensures
        short_3(x) == short_2(short_2(x)),
        short_3(x) <= 0x7FFF,
{
}

proof fn lemma_short_square_3(x: u16)
    by (bit_vector)
    requires
        x <= 0x7FFF,
    ensures
        short_4(x) == short_3(short_3(x)),
        short_4(x) <= 0x7FFF,
{
}

proof fn lemma_short_square_4(x: u16)
    by (bit_vector)
    requires
        x <= 0x7FFF,
    ensures
        short_5(x) == short_4(short_4(x)),
        short_5(x) <= 0x7FFF,
{
}

proof fn lemma_short_square_5(x: u16)
    by (bit_vector)
    requires
        x <= 0x7FFF,
    ensures
        short_6(x) == short_5(short_5(x)),
        short_6(x) <= 0x7FFF,
{
}

proof fn lemma_long_wraps(x: u16)
    by (bit_vector)
    requires
        x <= 0x7FFF,
    ensures
        long_15(x) == long_0(x),
        long_0(x) == 0 ==> x == 0,
{
}

proof fn lemma_long_is_injective(x: u16, y: u16)
    by (bit_vector)
    requires
        x <= 0x7FFF,
        y <= 0x7FFF,
        long_0(x) == long_0(y),
    ensures
        x == y,
{
}

/// The register 5 steps later in the short mode.
pub open spec fn short_steps_5(x: u16) -> u16 {
    column(x, 0, 0x0400) ^ column(x, 1, 0x0800) ^ column(x, 2, 0x1000) ^ column(x, 3, 0x2000) ^ column(x, 4, 0x4000) ^ column(x, 5, 0x0001) ^ column(x, 6, 0x0402) ^ column(x, 7, 0x0804) ^ column(x, 8, 0x1008) ^ column(x, 9, 0x2010) ^ column(x, 10, 0x4020) ^ column(x, 11, 0x0040) ^ column(x, 12, 0x0080) ^ column(x, 13, 0x0100) ^ column(x, 14, 0x0200)
}

/// The register 13 steps later in the short mode.
pub open spec fn short_steps_13(x: u16) -> u16 {
    column(x, 0, 0x0804) ^ column(x, 1, 0x1008) ^ column(x, 2, 0x2010) ^ column(x, 3, 0x4020) ^ column(x, 4, 0x0040) ^ column(x, 5, 0x0080) ^ column(x, 6, 0x0904) ^ column(x, 7, 0x1208) ^ column(x, 8, 0x2410) ^ column(x, 9, 0x4820) ^ column(x, 10, 0x1040) ^ column(x, 11, 0x2080) ^ column(x, 12, 0x4100) ^ column(x, 13, 0x0201) ^ column(x, 14, 0x0402)
}

/// The register 29 steps later in the short mode.
pub open spec fn short_steps_29(x: u16) -> u16 {
    column(x, 0, 0x2012) ^ column(x, 1, 0x4024) ^ column(x, 2, 0x0048) ^ column(x, 3, 0x0090) ^ column(x, 4, 0x0120) ^ column(x, 5, 0x0241) ^ column(x, 6, 0x2490) ^ column(x, 7, 0x4920) ^ column(x, 8, 0x1240) ^ column(x, 9, 0x2480) ^ column(x, 10, 0x4900) ^ column(x, 11, 0x1201) ^ column(x, 12, 0x2402) ^ column(x, 13, 0x4804) ^ column(x, 14, 0x1009)
}

proof fn lemma_short_product_5(x: u16)
    by (bit_vector)
    requires
        x <= 0x7FFF,
    ensures
        short_2(short_0(x)) == short_steps_5(x),
        short_steps_5(x) <= 0x7FFF,
{
}

proof fn lemma_short_product_13(x: u16)
    by (bit_vector)
    requires
        x <= 0x7FFF,
    ensures
        short_3(short_steps_5(x)) == short_steps_13(x),
        short_steps_13(x) <= 0x7FFF,
{
}

proof fn lemma_short_product_29(x: u16)
    by (bit_vector)
    requires
        x <= 0x7FFF,
    ensures
        short_4(short_steps_13(x)) == short_steps_29(x),
        short_steps_29(x) <= 0x7FFF,
{
}

proof fn lemma_short_product_93(x: u16)
    by (bit_vector)
    requires
        x <= 0x7FFF,
    ensures
        short_6(short_steps_29(x)) == x,
{
}

/// Steps add up: `a + b` steps are `a` steps and then `b` steps.
pub proof fn lemma_steps_add(x: u16, mode: bool, a: nat, b: nat)
    ensures
        stepped_by(x, mode, a + b) == stepped_by(stepped_by(x, mode, a), mode, b),
    decreases b,
{
    if b > 0 {
        lemma_steps_add(x, mode, a, (b - 1) as nat);
        assert(a + b - 1 == a + (b - 1) as nat);
    }
}

/// In the long mode 1 step is the map `long_0`.
pub proof fn lemma_long_power_0(x: u16)
    requires
        x <= 0x7FFF,
    ensures
        stepped_by(x, false, 1) == long_0(x),
        long_0(x) <= 0x7FFF,
{
    lemma_long_base(x);
    assert(stepped_by(x, false, 1) == stepped(stepped_by(x, false, 0), false));
}

/// In the long mode 2 steps are the map `long_1`.
pub proof fn lemma_long_power_1(x: u16)
    requires
        x <= 0x7FFF,
    ensures
        stepped_by(x, false, 2) == long_1(x),
        long_1(x) <= 0x7FFF,
{
    lemma_long_power_0(x);
    lemma_long_power_0(long_0(x));
    lemma_steps_add(x, false, 1, 1);
    lemma_long_square_0(x);
}

/// In the long mode 4 steps are the map `long_2`.
pub proof fn lemma_long_power_2(x: u16)
    requires
        x <= 0x7FFF,
    ensures
        stepped_by(x, false, 4) == long_2(x),
        long_2(x) <= 0x7FFF,
{
    lemma_long_power_1(x);
    lemma_long_power_1(long_1(x));
    lemma_steps_add(x, false, 2, 2);
    lemma_long_square_1(x);
}

/// In the long mode 8 steps are the map `long_3`.
pub proof fn lemma_long_power_3(x: u16)
    requires
        x <= 0x7FFF,
    ensures
        stepped_by(x, false, 8) == long_3(x),
        long_3(x) <= 0x7FFF,
{
    lemma_long_power_2(x);
    lemma_long_power_2(long_2(x));
    lemma_steps_add(x, false, 4, 4);
    lemma_long_square_2(x);
}

/// In the long mode 16 steps are the map `long_4`.
pub proof fn lemma_long_power_4(x: u16)
    requires
        x <= 0x7FFF,
    ensures
        stepped_by(x, false, 16) == long_4(x),
        long_4(x) <= 0x7FFF,
{
    lemma_long_power_3(x);
    lemma_long_power_3(long_3(x));
    lemma_steps_add(x, false, 8, 8);
    lemma_long_square_3(x);
}

/// In the long mode 32 steps are the map `long_5`.
pub proof fn lemma_long_power_5(x: u16)
    requires
        x <= 0x7FFF,
    ensures
        stepped_by(x, false, 32) == long_5(x),
        long_5(x) <= 0x7FFF,
{
    lemma_long_power_4(x);
    lemma_long_power_4(long_4(x));
    lemma_steps_add(x, false, 16, 16);
    lemma_long_square_4(x);
}

/// In the long mode 64 steps are the map `long_6`.
pub proof fn lemma_long_power_6(x: u16)
    requires
        x <= 0x7FFF,
    ensures
        stepped_by(x, false, 64) == long_6(x),
        long_6(x) <= 0x7FFF,
{
    lemma_long_power_5(x);
    lemma_long_power_5(long_5(x));
    lemma_steps_add(x, false, 32, 32);
    lemma_long_square_5(x);
}

/// In the long mode 128 steps are the map `long_7`.
pub proof fn lemma_long_power_7(x: u16)
    requires
        x <= 0x7FFF,
    ensures
        stepped_by(x, false, 128) == long_7(x),
        long_7(x) <= 0x7FFF,
{
    lemma_long_power_6(x);
    lemma_long_power_6(long_6(x));
    lemma_steps_add(x, false, 64, 64);
    lemma_long_square_6(x);
}

/// In the long mode 256 steps are the map `long_8`.
pub proof fn lemma_long_power_8(x: u16)
    requires
        x <= 0x7FFF,
    ensures
        stepped_by(x, false, 256) == long_8(x),
        long_8(x) <= 0x7FFF,
{
    lemma_long_power_7(x);
    lemma_long_power_7(long_7(x));
    lemma_steps_add(x, false, 128, 128);
    lemma_long_square_7(x);
}

/// In the long mode 512 steps are the map `long_9`.
pub proof fn lemma_long_power_9(x: u16)
    requires
        x <= 0x7FFF,
    ensures
        stepped_by(x, false, 512) == long_9(x),
        long_9(x) <= 0x7FFF,
{
    lemma_long_power_8(x);
    lemma_long_power_8(long_8(x));
    lemma_steps_add(x, false, 256, 256);
    lemma_long_square_8(x);
}

/// In the long mode 1024 steps are the map `long_10`.
pub proof fn lemma_long_power_10(x: u16)
    requires
        x <= 0x7FFF,
    ensures
        stepped_by(x, false, 1024) == long_10(x),
        long_10(x) <= 0x7FFF,
{
    lemma_long_power_9(x);
    lemma_long_power_9(long_9(x));
    lemma_steps_add(x, false, 512, 512);
    lemma_long_square_9(x);
}

/// In the long mode 2048 steps are the map `long_11`.
pub proof fn lemma_long_power_11(x: u16)
    requires
        x <= 0x7FFF,
    ensures
        stepped_by(x, false, 2048) == long_11(x),
        long_11(x) <= 0x7FFF,
{
    lemma_long_power_10(x);
    lemma_long_power_10(long_10(x));
    lemma_steps_add(x, false, 1024, 1024);
    lemma_long_square_10(x);
}

/// In the long mode 4096 steps are the map `long_12`.
pub proof fn lemma_long_power_12(x: u16)
    requires
        x <= 0x7FFF,
    ensures
        stepped_by(x, false, 4096) == long_12(x),
        long_12(x) <= 0x7FFF,
{
    lemma_long_power_11(x);
    lemma_long_power_11(long_11(x));
    lemma_steps_add(x, false, 2048, 2048);
    lemma_long_square_11(x);
}

/// In the long mode 8192 steps are the map `long_13`.
pub proof fn lemma_long_power_13(x: u16)
    requires
        x <= 0x7FFF,
    ensures
        stepped_by(x, false, 8192) == long_13(x),
        long_13(x) <= 0x7FFF,
{
    lemma_long_power_12(x);
    lemma_long_power_12(long_12(x));
    lemma_steps_add(x, false, 4096, 4096);
    lemma_long_square_12(x);
}

/// In the long mode 16384 steps are the map `long_14`.
pub proof fn lemma_long_power_14(x: u16)
    requires
        x <= 0x7FFF,
    ensures
        stepped_by(x, false, 16384) == long_14(x),
        long_14(x) <= 0x7FFF,
{
    lemma_long_power_13(x);
    lemma_long_power_13(long_13(x));
    lemma_steps_add(x, false, 8192, 8192);
    lemma_long_square_13(x);
}

/// In the long mode 32768 steps are the map `long_15`.
pub proof fn lemma_long_power_15(x: u16)
    requires
        x <= 0x7FFF,
    ensures
        stepped_by(x, false, 32768) == long_15(x),
        long_15(x) <= 0x7FFF,
{
    lemma_long_power_14(x);
    lemma_long_power_14(long_14(x));
    lemma_steps_add(x, false, 16384, 16384);
    lemma_long_square_14(x);
}

proof fn lemma_short_power_0(x: u16)
    requires
        x <= 0x7FFF,
    ensures
        stepped_by(x, true, 1) == short_0(x),
        short_0(x) <= 0x7FFF,
{
    lemma_short_base(x);
    assert(stepped_by(x, true, 1) == stepped(stepped_by(x, true, 0), true));
}

proof fn lemma_short_power_1(x: u16)
    requires
        x <= 0x7FFF,
    ensures
        stepped_by(x, true, 2) == short_1(x),
        short_1(x) <= 0x7FFF,
{
    lemma_short_power_0(x);
    lemma_short_power_0(short_0(x));
    lemma_steps_add(x, true, 1, 1);
    lemma_short_square_0(x);
}

proof fn lemma_short_power_2(x: u16)
    requires
        x <= 0x7FFF,
    ensures
        stepped_by(x, true, 4) == short_2(x),
        short_2(x) <= 0x7FFF,
{
    lemma_short_power_1(x);
    lemma_short_power_1(short_1(x));
    lemma_steps_add(x, true, 2, 2);
    lemma_short_square_1(x);
}

proof fn lemma_short_power_3(x: u16)
    requires
        x <= 0x7FFF,
    ensures
        stepped_by(x, true, 8) == short_3(x),
        short_3(x) <= 0x7FFF,
{
    lemma_short_power_2(x);
    lemma_short_power_2(short_2(x));
    lemma_steps_add(x, true, 4, 4);
    lemma_short_square_2(x);
}

proof fn lemma_short_power_4(x: u16)
    requires
        x <= 0x7FFF,
    ensures
        stepped_by(x, true, 16) == short_4(x),
        short_4(x) <= 0x7FFF,
{
    lemma_short_power_3(x);
    lemma_short_power_3(short_3(x));
    lemma_steps_add(x, true, 8, 8);
    lemma_short_square_3(x);
}

proof fn lemma_short_power_5(x: u16)
    requires
        x <= 0x7FFF,
    ensures
        stepped_by(x, true, 32) == short_5(x),
        short_5(x) <= 0x7FFF,
{
    lemma_short_power_4(x);
    lemma_short_power_4(short_4(x));
    lemma_steps_add(x, true, 16, 16);
    lemma_short_square_4(x);
}

proof fn lemma_short_power_6(x: u16)
    requires
        x <= 0x7FFF,
    ensures
        stepped_by(x, true, 64) == short_6(x),
        short_6(x) <= 0x7FFF,
{
    lemma_short_power_5(x);
    lemma_short_power_5(short_5(x));
    lemma_steps_add(x, true, 32, 32);
    lemma_short_square_5(x);
}

/// In the long mode every content of the 15-bit register other than zero
/// comes back after 32767 steps.
pub proof fn lemma_long_period(x: u16)
    requires
        1 <= x <= 0x7FFF,
    ensures
        stepped_by(x, false, 32767) == x,
{
    let y = stepped_by(x, false, 32767);
    lemma_steps_add(x, false, 1, 32767);
    lemma_steps_add(x, false, 32767, 1);
    lemma_long_power_15(x);
    lemma_long_power_0(x);
    lemma_long_wraps(x);
    lemma_stays_in_range(x, false, 32767);
    assert(stepped_by(x, false, 32768) == long_0(x));
    assert(stepped_by(y, false, 1) == stepped(stepped_by(y, false, 0), false));
    lemma_long_base(y);
    lemma_long_is_injective(y, x);
}

/// The register never leaves the 15 bits.
pub proof fn lemma_stays_in_range(x: u16, mode: bool, n: nat)
    requires
        x <= 0x7FFF,
    ensures
        stepped_by(x, mode, n) <= 0x7FFF,
    decreases n,
{
    if n > 0 {
        lemma_stays_in_range(x, mode, (n - 1) as nat);
        let y = stepped_by(x, mode, (n - 1) as nat);
        if mode {
            lemma_short_base(y);
        } else {
            lemma_long_base(y);
        }
    }
}

/// In the short mode every content of the 15-bit register comes back after
/// 93 steps: its period divides 93.
pub proof fn lemma_short_period(x: u16)
    requires
        x <= 0x7FFF,
    ensures
        stepped_by(x, true, 93) == x,
{
    // 93 = 1 + 4 + 8 + 16 + 64
    lemma_short_power_0(x);
    let a = short_0(x);
    lemma_short_power_2(a);
    lemma_steps_add(x, true, 1, 4);
    let b = short_2(a);
    lemma_short_power_3(b);
    lemma_steps_add(x, true, 5, 8);
    let c = short_3(b);
    lemma_short_power_4(c);
    lemma_steps_add(x, true, 13, 16);
    let d = short_4(c);
    lemma_short_power_6(d);
    lemma_steps_add(x, true, 29, 64);
    lemma_short_product_5(x);
    lemma_short_product_13(x);
    lemma_short_product_29(x);
    lemma_short_product_93(x);
}

} // verus!
