//! The 15-bit video address registers `v` and `t`: coarse X in bits 0-4,
//! coarse Y in bits 5-9, name table in bits 10-11, fine Y in bits 12-14.

use vstd::prelude::*;
use crate::util::bit::{bits16, bits_abs16};

verus! {

/// The address made of the four scroll fields.
pub open spec fn compose(fine_y: int, nametable: int, coarse_y: int, coarse_x: int) -> int {
    fine_y * 4096 + nametable * 1024 + coarse_y * 32 + coarse_x
}

/// A video address register.
#[derive(Clone, Copy, Debug)]
pub struct Address {
    pub addr: u16,
}

impl Address {
    /// The register holds fifteen bits.
    pub open spec fn wf(self) -> bool {
        self.addr <= 0x7FFF
    }

    pub open spec fn coarse_x(self) -> int {
        self.addr as int % 32
    }

    pub open spec fn coarse_y(self) -> int {
        (self.addr as int / 32) % 32
    }

    pub open spec fn nametable(self) -> int {
        (self.addr as int / 1024) % 4
    }

    pub open spec fn fine_y(self) -> int {
        (self.addr as int / 4096) % 8
    }

    /// The address one tile further right: coarse X steps, and from 31 it
    /// wraps to 0 and switches the horizontal name table.
    pub open spec fn horizontal_successor(self) -> int {
        if self.coarse_x() == 31 {
            let nt = if self.nametable() % 2 == 0 {
                self.nametable() + 1
            } else {
                self.nametable() - 1
            };
            compose(self.fine_y(), nt, self.coarse_y(), 0)
        } else {
            compose(self.fine_y(), self.nametable(), self.coarse_y(), self.coarse_x() + 1)
        }
    }

    /// The address one pixel row further down: fine Y steps; from 7 it wraps
    /// and coarse Y steps, which from 29 wraps and switches the vertical name
    /// table, and from 31 wraps without switching.
    pub open spec fn vertical_successor(self) -> int {
        if self.fine_y() < 7 {
            compose(self.fine_y() + 1, self.nametable(), self.coarse_y(), self.coarse_x())
        } else if self.coarse_y() == 29 {
            let nt = if self.nametable() / 2 == 0 {
                self.nametable() + 2
            } else {
                self.nametable() - 2
            };
            compose(0, nt, 0, self.coarse_x())
        } else if self.coarse_y() == 31 {
            compose(0, self.nametable(), 0, self.coarse_x())
        } else {
            compose(0, self.nametable(), self.coarse_y() + 1, self.coarse_x())
        }
    }

    /// The address after an access through the data port: plus 32 or plus 1,
    /// and past 0x3FFF folded back into 0x2000-0x5FFF.
    pub open spec fn after_increment(self, inc_vert: bool) -> Self {
        let next = self.addr + if inc_vert {
            32int
        } else {
            1int
        };
        Address {
            addr: if next > 0x3FFF {
                (next % 0x4000 + 0x2000) as u16
            } else {
                next as u16
            },
        }
    }

    /// The register after a write to the address port: the first write sets
    /// bits 8-13 and clears bit 14, the second sets the low byte.
    pub open spec fn after_write_addr(self, byte: u8, w: bool) -> Self {
        if !w {
            Address { addr: (self.addr % 256 + (byte % 64) * 256) as u16 }
        } else {
            Address { addr: (((self.addr / 256) % 128) * 256 + byte) as u16 }
        }
    }

    /// The register after a write to the scroll port: the first write sets
    /// coarse X, the second coarse Y and fine Y.
    pub open spec fn after_write_scroll(self, byte: u8, w: bool) -> Self {
        if !w {
            Address { addr: (((self.addr / 32) % 1024) * 32 + byte / 8) as u16 }
        } else {
            Address {
                addr: compose(
                    byte as int % 8,
                    self.nametable(),
                    byte as int / 8,
                    self.coarse_x(),
                ) as u16,
            }
        }
    }

    /// Address zero.
    pub fn new() -> (a: Address)
        ensures
            a.addr == 0,
    {
        Address { addr: 0 }
    }

    /// The address held.
    pub fn address(&self) -> (a: u16)
        ensures
            a == self.addr,
    {
        self.addr
    }

    /// The address one tile further right.
    pub fn inc_horiz(&self) -> (a: u16)
        ensures
            a == self.horizontal_successor(),
            a <= 0x7FFF,
    {
        let addr: u16 = self.addr;
        let mut x: u16 = bits_abs16(addr, 0, 4);
        let mut nt_bits: u16 = bits16(addr, 10, 11);
        if x == 31 {
            x = 0;
            nt_bits = if nt_bits % 2 == 0 {
                nt_bits + 1
            } else {
                nt_bits - 1
            };
        } else {
            x = x + 1;
        }
        bits_abs16(addr, 12, 14) + bits_abs16(addr, 5, 9) + nt_bits * 1024 + x
    }

    /// The address one pixel row further down.
    pub fn inc_vert(&self) -> (a: u16)
        ensures
            a == self.vertical_successor(),
            a <= 0x7FFF,
    {
        let addr: u16 = self.addr;
        let mut fine_y: u16 = bits16(addr, 12, 14);
        let mut coarse_y: u16 = bits16(addr, 5, 9);
        let mut nt_bits: u16 = bits16(addr, 10, 11);
        if fine_y < 7 {
            fine_y = fine_y + 1;
        } else {
            fine_y = 0;
            if coarse_y == 29 {
                coarse_y = 0;
                nt_bits = if nt_bits / 2 == 0 {
                    nt_bits + 2
                } else {
                    nt_bits - 2
                };
            } else if coarse_y == 31 {
                coarse_y = 0;
            } else {
                coarse_y = coarse_y + 1;
            }
        }
        bits_abs16(addr, 0, 4) + fine_y * 4096 + nt_bits * 1024 + coarse_y * 32
    }

    /// Moves on after an access through the data port.
    pub fn increment(&mut self, inc_vert: bool)
        requires
            old(self).wf(),
        ensures
            *final(self) == old(self).after_increment(inc_vert),
            final(self).wf(),
    {
        let mut addr: u16 = self.addr;
        if inc_vert {
            addr = addr + 32;
        } else {
            addr = addr + 1;
        }
        if addr > 0x3FFF {
            addr = (addr % 0x4000) + 0x2000;
        }
        self.addr = addr;
    }

    /// Replaces the address.
    pub fn update(&mut self, addr: u16)
        ensures
            final(self).addr == addr,
    {
        self.addr = addr;
    }

    /// A write to the address port; `w` tells whether it is the second of a pair.
    pub fn write_addr(&mut self, byte: u8, w: bool)
        ensures
            *final(self) == old(self).after_write_addr(byte, w),
            final(self).wf(),
    {
        if !w {
            let part: u16 = bits_abs16(byte as u16, 0, 5);
            let addr: u16 = bits_abs16(self.addr, 0, 7);
            self.addr = addr + part * 256;
        } else {
            let addr: u16 = bits_abs16(self.addr, 8, 14);
            self.addr = addr + byte as u16;
        }
    }

    /// A write to the scroll port; `w` tells whether it is the second of a pair.
    pub fn write_scroll(&mut self, byte: u8, w: bool)
        ensures
            *final(self) == old(self).after_write_scroll(byte, w),
            final(self).wf(),
    {
        if !w {
            let x: u16 = bits16(byte as u16, 3, 7);
            let addr: u16 = bits_abs16(self.addr, 5, 14);
            self.addr = addr + x;
        } else {
            let coarse_y: u16 = bits16(byte as u16, 3, 7);
            let addr: u16 = bits_abs16(self.addr, 10, 11) + bits_abs16(self.addr, 0, 4);
            let fine_y: u16 = bits_abs16(byte as u16, 0, 2);
            self.addr = addr + coarse_y * 32 + fine_y * 4096;
        }
    }
}

} // verus!
