//! Small helpers shared by every component.

use vstd::prelude::*;

pub mod bit;
pub mod shift_reg;

verus! {

/// Settings handed to the machine when it is built.
#[derive(Clone)]
pub struct Config {
    pub filename: String,
}

impl Config {
    /// A configuration naming the cartridge image `filename`.
    pub fn new(filename: &str) -> (config: Config)
        ensures
            config.filename@ == filename@,
    {
        Config { filename: filename.to_string() }
    }
}

/// Whether adding `offset` to the low byte of `src` leaves the page of `src`.
pub open spec fn page_crossed(src: u16, offset: int) -> bool {
    let target = src % 0x100 + offset;
    target < 0 || target > 0xFF
}

/// Tells whether `src + offset` lies on another 256-byte page than `src`.
pub fn crosses_page(src: u16, offset: i32) -> (crossed: bool)
    requires
        -0x8000_0000 + 0x100 <= offset <= 0x7FFF_FFFF - 0x100,
    ensures
        crossed == page_crossed(src, offset as int),
{
    let normalized_src: i32 = (src % 0x100) as i32;
    let target: i32 = normalized_src + offset;
    target < 0 || target > 0xFF
}

/// The low byte of a 16-bit word.
pub open spec fn low_byte(x: u16) -> u8 {
    (x % 0x100) as u8
}

/// The high byte of a 16-bit word.
pub open spec fn high_byte(x: u16) -> u8 {
    (x / 0x100) as u8
}

/// The word whose low byte is `lo` and whose high byte is `hi`.
pub open spec fn word_of(lo: u8, hi: u8) -> u16 {
    (hi * 0x100 + lo) as u16
}

/// 1 for `true`, 0 for `false`.
pub open spec fn bool_bit(b: bool) -> u8 {
    if b { 1 } else { 0 }
}

/// Sum of two bytes modulo 256.
pub open spec fn wrap_add8(a: u8, b: u8) -> u8 {
    ((a + b) % 0x100) as u8
}

/// Difference of two bytes modulo 256.
pub open spec fn wrap_sub8(a: u8, b: u8) -> u8 {
    ((a + 0x100 - b) % 0x100) as u8
}

/// Sum of two words modulo 65536.
pub open spec fn wrap_add16(a: u16, b: u16) -> u16 {
    ((a + b) % 0x1_0000) as u16
}

/// Difference of two words modulo 65536.
pub open spec fn wrap_sub16(a: u16, b: u16) -> u16 {
    ((a + 0x1_0000 - b) % 0x1_0000) as u16
}

/// The low byte of `x` read as a two's-complement distance.
pub open spec fn offset_of(x: u16) -> i8 {
    if x % 0x100 >= 0x80 {
        (x % 0x100 - 0x100) as i8
    } else {
        (x % 0x100) as i8
    }
}

pub fn to_offset(x: u16) -> (r: i8)
    ensures
        r == offset_of(x),
{
    let low: u16 = x % 0x100;
    if low >= 0x80 {
        (low as i16 - 0x100) as i8
    } else {
        low as i8
    }
}

pub fn lo8(x: u16) -> (r: u8)
    ensures
        r == low_byte(x),
{
    (x % 0x100) as u8
}

pub fn hi8(x: u16) -> (r: u8)
    ensures
        r == high_byte(x),
{
    (x / 0x100) as u8
}

pub fn make_word(lo: u8, hi: u8) -> (r: u16)
    ensures
        r == word_of(lo, hi),
{
    (hi as u16) * 0x100 + (lo as u16)
}

pub fn widen(x: u8) -> (r: u16)
    ensures
        r == x,
{
    x as u16
}

pub fn flag_bit(b: bool) -> (r: u8)
    ensures
        r == bool_bit(b),
{
    if b { 1 } else { 0 }
}

pub fn add8(a: u8, b: u8) -> (r: u8)
    ensures
        r == wrap_add8(a, b),
{
    (((a as u16) + (b as u16)) % 0x100) as u8
}

pub fn sub8(a: u8, b: u8) -> (r: u8)
    ensures
        r == wrap_sub8(a, b),
{
    (((a as u16) + 0x100 - (b as u16)) % 0x100) as u8
}

pub fn add16(a: u16, b: u16) -> (r: u16)
    ensures
        r == wrap_add16(a, b),
{
    (((a as u32) + (b as u32)) % 0x1_0000) as u16
}

pub fn sub16(a: u16, b: u16) -> (r: u16)
    ensures
        r == wrap_sub16(a, b),
{
    (((a as u32) + 0x1_0000 - (b as u32)) % 0x1_0000) as u16
}

} // verus!
