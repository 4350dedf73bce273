//! The control register of the picture unit.

use vstd::prelude::*;
use crate::util::bit::{bit8, bit_at, bits8};
use crate::util::{bool_bit, flag_bit};

verus! {

/// The fields of the control register.
#[derive(Clone, Copy, Debug)]
pub struct Control {
    pub nmi: bool,
    pub master_slave: bool,
    /// Pixels per sprite: 64 for 8x8, 128 for 8x16.
    pub size: u8,
    pub bg_pt_addr: u16,
    pub spr_pt_addr: u16,
    pub inc_vert: bool,
    pub base_nt_addr: u16,
}

impl Control {
    /// Every field holds one of the values a byte can decode to.
    pub open spec fn wf(self) -> bool {
        &&& (self.size == 64 || self.size == 128)
        &&& (self.bg_pt_addr == 0 || self.bg_pt_addr == 0x1000)
        &&& (self.spr_pt_addr == 0 || self.spr_pt_addr == 0x1000)
        &&& (self.base_nt_addr == 0x2000 || self.base_nt_addr == 0x2400 || self.base_nt_addr
            == 0x2800 || self.base_nt_addr == 0x2C00)
    }

    /// The register a byte decodes to.
    pub open spec fn decoded(item: u8) -> Control {
        Control {
            nmi: bit_at(item as int, 7),
            master_slave: bit_at(item as int, 6),
            size: if bit_at(item as int, 5) {
                128
            } else {
                64
            },
            bg_pt_addr: if bit_at(item as int, 4) {
                0x1000
            } else {
                0
            },
            spr_pt_addr: if bit_at(item as int, 3) {
                0x1000
            } else {
                0
            },
            inc_vert: bit_at(item as int, 2),
            base_nt_addr: (0x2000 + (item % 4) * 0x400) as u16,
        }
    }

    /// The byte the register encodes to.  Bit 5 is set for the 8x8 size.
    pub open spec fn encoded(self) -> u8 {
        (bool_bit(self.nmi) * 128 + bool_bit(self.master_slave) * 64 + bool_bit(self.size == 64)
            * 32 + bool_bit(self.bg_pt_addr == 0x1000) * 16 + bool_bit(self.spr_pt_addr == 0x1000)
            * 8 + bool_bit(self.inc_vert) * 4 + (self.base_nt_addr - 0x2000) / 0x400) as u8
    }

    /// The register at power-up: interrupt enabled, 8x8 sprites, tables at 0.
    pub fn new() -> (c: Control)
        ensures
            c.wf(),
            c == (Control {
                nmi: true,
                master_slave: false,
                size: 64,
                bg_pt_addr: 0,
                spr_pt_addr: 0,
                inc_vert: false,
                base_nt_addr: 0x2000,
            }),
    {
        Control {
            nmi: true,
            master_slave: false,
            size: 8 * 8,
            bg_pt_addr: 0x0000,
            spr_pt_addr: 0x0000,
            inc_vert: false,
            base_nt_addr: 0x2000,
        }
    }

    /// Decodes a written byte.
    pub fn from_byte(item: u8) -> (c: Control)
        ensures
            c == Control::decoded(item),
            c.wf(),
    {
        let base_nt_addr: u8 = bits8(item, 0, 1);
        Control {
            nmi: bit8(item, 7),
            master_slave: bit8(item, 6),
            size: if bit8(item, 5) {
                8 * 16
            } else {
                8 * 8
            },
            bg_pt_addr: if bit8(item, 4) {
                0x1000
            } else {
                0x0000
            },
            spr_pt_addr: if bit8(item, 3) {
                0x1000
            } else {
                0x0000
            },
            inc_vert: bit8(item, 2),
            base_nt_addr: 0x2000 + (base_nt_addr as u16) * 0x400,
        }
    }

    /// Encodes the register as a byte.
    pub fn to_byte(self) -> (b: u8)
        requires
            self.wf(),
        ensures
            b == self.encoded(),
    {
        let base_nt_addr: u8 = ((self.base_nt_addr - 0x2000) / 0x400) as u8;
        flag_bit(self.nmi) * 128 + flag_bit(self.master_slave) * 64 + flag_bit(self.size == 64)
            * 32 + flag_bit(self.bg_pt_addr == 0x1000) * 16 + flag_bit(self.spr_pt_addr == 0x1000)
            * 8 + flag_bit(self.inc_vert) * 4 + base_nt_addr
    }
}

} // verus!
