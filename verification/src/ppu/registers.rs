//! The eight ports through which the processor talks to the picture unit.

use vstd::prelude::*;
use crate::ppu::address::Address;
use crate::ppu::ctrl::Control;
use crate::ppu::mask::Mask;
use crate::ppu::status::Status;
use crate::ppu::{Ppu, Registers};
use crate::util::bit::{bit16, bit_at, bits_abs16, bits_abs8, field_in_place};

verus! {

impl Ppu {
    /// What a read of the status port returns: the three flags in bits 7
    /// to 5 over the low five bits last seen on the register bus.
    pub open spec fn status_byte(self) -> u8 {
        (self.regs.status.encoded() + self.regs.bus % 32) as u8
    }

    /// The unit after a read of the status port: the vertical-blank flag
    /// falls, the interrupt request of this vertical blank is taken back
    /// if the processor has not taken it yet, and the write toggle is cleared.
    #[verifier::opaque]
    pub open spec fn after_read_status(self) -> Ppu {
        Ppu {
            regs: Registers {
                status: Status { vblank: false, ..self.regs.status },
                w: false,
                bus: self.status_byte(),
                ..self.regs.without_latch()
            },
            ..self
        }
    }

    /// What a read of the sprite data port returns and leaves behind; the
    /// sprite address moves on only while the unit is drawing.
    #[verifier::opaque]
    pub open spec fn reading_oam(self) -> (u8, Ppu) {
        let blank = self.regs.status.vblank || !self.regs.rendering();
        (
            self.oam.read_value(),
            Ppu {
                oam: self.oam.after_read(!blank),
                regs: Registers { bus: self.oam.read_value(), ..self.regs },
                ..self
            },
        )
    }

    /// The unit after the video address moved on by 1 or 32 past an
    /// access through the data port, and the address watcher saw the new address.
    #[verifier::opaque]
    pub open spec fn after_advance_v(self) -> Ppu {
        let v = self.regs.v.after_increment(self.regs.ctrl.inc_vert);
        (Ppu { regs: Registers { v, ..self.regs }, ..self }).after_watch_a12(
            bit_at(v.addr as int, 12),
        )
    }

    /// What the data port delivers and leaves behind, before the video
    /// address moves on: below the palette the read is buffered by one
    /// access, the palette reads through.
    #[verifier::opaque]
    pub open spec fn reading_buffered(self) -> (u8, Ppu) {
        let addr = self.regs.v.addr;
        let f = self.reading(addr);
        if addr < 0x3F00 {
            (
                self.regs.buf,
                Ppu { regs: Registers { buf: f.0, bus: self.regs.buf, ..f.1.regs }, ..f.1 },
            )
        } else {
            (f.0, Ppu { regs: Registers { bus: f.0, ..f.1.regs }, ..f.1 })
        }
    }

    /// What a read of the data port returns and leaves behind.
    #[verifier::opaque]
    pub open spec fn reading_data(self) -> (u8, Ppu) {
        let f = self.reading_buffered();
        (f.0, f.1.after_advance_v())
    }

    /// What a read of port `reg` returns and leaves behind.  The write-only
    /// ports return what was last on the register bus.
    #[verifier::opaque]
    pub open spec fn reading_reg(self, reg: u8) -> (u8, Ppu) {
        if reg == 2 {
            (self.status_byte(), self.after_read_status())
        } else if reg == 4 {
            self.reading_oam()
        } else if reg == 7 {
            self.reading_data()
        } else {
            (self.regs.bus, self)
        }
    }

    /// The unit after `data` was written to the control port: the register
    /// is decoded, its low two bits replace bits 10 and 11 of `t`, and
    /// switching the interrupt on while the vertical-blank flag is up
    /// latches it.
    #[verifier::opaque]
    pub open spec fn after_write_ctrl(self, data: u8) -> Ppu {
        let ctrl = Control::decoded(data);
        let t = Address {
            addr: (field_in_place(self.regs.t.addr as int, 12, 14, 16) + field_in_place(
                self.regs.t.addr as int,
                0,
                9,
                16,
            ) + (data % 4) * 1024) as u16,
        };
        let regs = Registers { ctrl, t, ..self.regs };
        Ppu {
            regs: if ctrl.nmi && !self.regs.ctrl.nmi && self.regs.status.vblank {
                regs.with_latch()
            } else {
                regs
            },
            ..self
        }
    }

    /// The unit after `data` was written to the scroll port.
    #[verifier::opaque]
    pub open spec fn after_write_scroll(self, data: u8) -> Ppu {
        Ppu {
            regs: Registers {
                x: if self.regs.w {
                    self.regs.x
                } else {
                    data % 8
                },
                t: self.regs.t.after_write_scroll(data, self.regs.w),
                w: !self.regs.w,
                ..self.regs
            },
            ..self
        }
    }

    /// The unit after `data` was written to the address port; the second
    /// write of a pair reaches `v` three dots later.
    #[verifier::opaque]
    pub open spec fn after_write_addr(self, data: u8) -> Ppu {
        Ppu {
            regs: Registers {
                t: self.regs.t.after_write_addr(data, self.regs.w),
                w: !self.regs.w,
                ppuscroll_delay: if self.regs.w {
                    3
                } else {
                    self.regs.ppuscroll_delay
                },
                ppuscroll_armed: self.regs.w || self.regs.ppuscroll_armed,
                ..self.regs
            },
            ..self
        }
    }

    /// The unit after `data` was written to the data port.
    #[verifier::opaque]
    pub open spec fn after_write_data(self, data: u8) -> Ppu {
        self.after_write(self.regs.v.addr, data).after_advance_v()
    }

    /// The unit after `data` was written to port `reg`.
    #[verifier::opaque]
    pub open spec fn after_write_reg(self, reg: u8, data: u8) -> Ppu {
        let s = Ppu { regs: Registers { bus: data, ..self.regs }, ..self };
        if reg == 0 {
            s.after_write_ctrl(data)
        } else if reg == 1 {
            Ppu { regs: Registers { mask: Mask::decoded(data), ..s.regs }, ..s }
        } else if reg == 3 {
            Ppu { oam: crate::ppu::oam::Oam { addr: data, ..s.oam }, ..s }
        } else if reg == 4 {
            Ppu { oam: s.oam.after_write(data), ..s }
        } else if reg == 5 {
            s.after_write_scroll(data)
        } else if reg == 6 {
            s.after_write_addr(data)
        } else if reg == 7 {
            s.after_write_data(data)
        } else {
            s
        }
    }

    /// Reads the status port.
    pub fn read_status(&mut self) -> (r: u8)
        requires
            old(self).wf(),
        ensures
            r == old(self).status_byte(),
            *final(self) == old(self).after_read_status(),
            final(self).wf(),
    {
        proof {
            reveal(Ppu::after_read_status);
        }
        let status: u8 = self.regs.status.to_byte();
        self.regs.status.vblank = false;
        self.regs.withdraw_interrupt();
        self.regs.w = false;
        let data: u8 = status + bits_abs8(self.regs.bus, 0, 4);
        self.regs.bus = data;
        data
    }

    /// Reads the sprite data port.
    pub fn read_oam_data(&mut self) -> (r: u8)
        requires
            old(self).wf(),
        ensures
            (r, *final(self)) == old(self).reading_oam(),
            final(self).wf(),
    {
        proof {
            reveal(Ppu::reading_oam);
        }
        let blank: bool = self.regs.status.vblank || (!self.regs.mask.show_background
            && !self.regs.mask.show_sprites);
        let data: u8 = self.oam.read(!blank);
        self.regs.bus = data;
        data
    }

    /// Moves the video address on past an access through the data port.
    pub fn advance_v(&mut self)
        requires
            old(self).wf(),
        ensures
            *final(self) == old(self).after_advance_v(),
            final(self).wf(),
    {
        proof {
            reveal(Ppu::after_advance_v);
        }
        self.regs.v.increment(self.regs.ctrl.inc_vert);
        self.watch_a12(bit16(self.regs.v.address(), 12));
    }

    /// Takes a byte from the data port, through the read buffer.
    pub fn read_buffered(&mut self) -> (r: u8)
        requires
            old(self).wf(),
        ensures
            (r, *final(self)) == old(self).reading_buffered(),
            final(self).wf(),
    {
        proof {
            reveal(Ppu::reading_buffered);
        }
        let addr: u16 = self.regs.v.address();
        if addr < 0x3F00 {
            let buffered: u8 = self.regs.buf;
            let fresh: u8 = self.read(addr);
            self.regs.buf = fresh;
            self.regs.bus = buffered;
            buffered
        } else {
            let fresh: u8 = self.read(addr);
            self.regs.bus = fresh;
            fresh
        }
    }

    /// Reads the data port.
    pub fn read_data(&mut self) -> (r: u8)
        requires
            old(self).wf(),
        ensures
            (r, *final(self)) == old(self).reading_data(),
            final(self).wf(),
    {
        proof {
            reveal(Ppu::reading_data);
        }
        let data: u8 = self.read_buffered();
        self.advance_v();
        data
    }

    /// Reads one of the eight ports.
    pub fn read_reg(&mut self, reg: u8) -> (r: u8)
        requires
            old(self).wf(),
            reg < 8,
        ensures
            (r, *final(self)) == old(self).reading_reg(reg),
            final(self).wf(),
    {
        proof {
            reveal(Ppu::reading_reg);
        }
        if reg == 2 {
            self.read_status()
        } else if reg == 4 {
            self.read_oam_data()
        } else if reg == 7 {
            self.read_data()
        } else {
            self.regs.bus
        }
    }

    /// Writes the control port.
    pub fn write_ctrl(&mut self, data: u8)
        requires
            old(self).wf(),
        ensures
            *final(self) == old(self).after_write_ctrl(data),
            final(self).wf(),
    {
        proof {
            reveal(Ppu::after_write_ctrl);
        }
        let mut regs: Registers = self.regs;
        let rose: bool = !regs.ctrl.nmi && regs.status.vblank;
        regs.ctrl = Control::from_byte(data);
        let nt_bits: u16 = (data % 4) as u16;
        let addr: u16 = regs.t.address();
        let addr: u16 = bits_abs16(addr, 12, 14) + bits_abs16(addr, 0, 9) + nt_bits * 1024;
        regs.t.update(addr);
        if rose && regs.ctrl.nmi {
            regs.latch_interrupt();
        }
        self.regs = regs;
    }

    /// Writes the scroll port.
    pub fn write_scroll(&mut self, data: u8)
        requires
            old(self).wf(),
        ensures
            *final(self) == old(self).after_write_scroll(data),
            final(self).wf(),
    {
        proof {
            reveal(Ppu::after_write_scroll);
        }
        let w: bool = self.regs.w;
        if !w {
            self.regs.x = data % 8;
        }
        self.regs.t.write_scroll(data, w);
        self.regs.w = !w;
    }

    /// Writes the address port.
    pub fn write_addr(&mut self, data: u8)
        requires
            old(self).wf(),
        ensures
            *final(self) == old(self).after_write_addr(data),
            final(self).wf(),
    {
        proof {
            reveal(Ppu::after_write_addr);
        }
        let w: bool = self.regs.w;
        self.regs.t.write_addr(data, w);
        self.regs.w = !w;
        if w {
            self.regs.ppuscroll_delay = 3;
            self.regs.ppuscroll_armed = true;
        }
    }

    /// Writes the data port.
    pub fn write_data(&mut self, data: u8)
        requires
            old(self).wf(),
        ensures
            *final(self) == old(self).after_write_data(data),
            final(self).wf(),
    {
        proof {
            reveal(Ppu::after_write_data);
        }
        let addr: u16 = self.regs.v.address();
        self.write(addr, data);
        self.advance_v();
    }

    /// Writes one of the eight ports.
    pub fn write_reg(&mut self, reg: u8, data: u8)
        requires
            old(self).wf(),
            reg < 8,
        ensures
            *final(self) == old(self).after_write_reg(reg, data),
            final(self).wf(),
    {
        proof {
            reveal(Ppu::after_write_reg);
        }
        self.regs.bus = data;
        if reg == 0 {
            self.write_ctrl(data);
        } else if reg == 1 {
            self.regs.mask = Mask::from_byte(data);
        } else if reg == 3 {
            self.oam.set_addr(data);
        } else if reg == 4 {
            self.oam.write(data);
        } else if reg == 5 {
            self.write_scroll(data);
        } else if reg == 6 {
            self.write_addr(data);
        } else if reg == 7 {
            self.write_data(data);
        }
    }
}

/// Reading the status port clears the vertical-blank flag and the write
/// toggle and reports the flags as they were.  The interrupt request of
/// this vertical blank is taken back if it still waits: afterwards no
/// request is marked as this blank's, and the other requests wait on.
pub proof fn lemma_status_read(p: Ppu)
    ensures
        !p.reading_reg(2).1.regs.status.vblank,
        !p.reading_reg(2).1.regs.nmi_occurred,
        p.reading_reg(2).1.regs.interrupts == (if p.regs.nmi_occurred && p.regs.interrupts > 0 {
            p.regs.interrupts - 1
        } else {
            p.regs.interrupts as int
        }),
        p.reading_reg(2).1.regs.ctrl == p.regs.ctrl,
        !p.reading_reg(2).1.regs.w,
        bit_at(p.reading_reg(2).0 as int, 7) == p.regs.status.vblank,
        bit_at(p.reading_reg(2).0 as int, 6) == p.regs.status.spr_0_hit,
        bit_at(p.reading_reg(2).0 as int, 5) == p.regs.status.spr_overflow,
        p.reading_reg(2).0 % 32 == p.regs.bus % 32,
{
    reveal(Ppu::reading_reg);
    reveal(Ppu::after_read_status);
}

/// A write to the control port decodes the register, puts its low two
/// bits into bits 10 and 11 of `t` and leaves `v` and the status flags
/// alone.  It latches the interrupt exactly when it switches the interrupt
/// on while the vertical-blank flag is up, whether or not the blank began
/// with the interrupt enabled.
pub proof fn lemma_enable_during_blank(p: Ppu, data: u8)
    requires
        p.regs.t.wf(),
    ensures
        ({
            let s = p.after_write_reg(0, data);
            let rise = bit_at(data as int, 7) && !p.regs.ctrl.nmi && p.regs.status.vblank;
            &&& s.regs.ctrl == Control::decoded(data)
            &&& s.regs.v == p.regs.v
            &&& s.regs.status == p.regs.status
            &&& (s.regs.t.addr / 1024) % 4 == data % 4
            &&& s.regs.t.addr % 1024 == p.regs.t.addr % 1024
            &&& s.regs.t.addr / 4096 == p.regs.t.addr / 4096
            &&& rise ==> s.regs.nmi_occurred && s.regs.interrupts == (if p.regs.interrupts
                < usize::MAX {
                p.regs.interrupts + 1
            } else {
                p.regs.interrupts as int
            })
            &&& !rise ==> s.regs.nmi_occurred == p.regs.nmi_occurred && s.regs.interrupts
                == p.regs.interrupts
        }),
{
    reveal(Ppu::after_write_reg);
    reveal(Ppu::after_write_ctrl);
}

/// Two writes to the address port set the fourteen bits of `t` to the two
/// bytes written, high byte first, and arm the copy into `v`.
pub proof fn lemma_address_pair(p: Ppu, high: u8, low: u8)
    requires
        !p.regs.w,
    ensures
        ({
            let s = p.after_write_reg(6, high).after_write_reg(6, low);
            &&& s.regs.t.addr == (high % 64) * 256 + low
            &&& !s.regs.w
            &&& s.regs.ppuscroll_armed
            &&& s.regs.ppuscroll_delay == 3
        }),
{
    reveal(Ppu::after_write_reg);
    reveal(Ppu::after_write_addr);
}

} // verus!
