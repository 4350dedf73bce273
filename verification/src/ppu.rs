//! The picture unit: registers, video memory, the background and sprite
//! pipelines, and the frame timing that raises the vertical-blank interrupt.

use vstd::prelude::*;
use crate::cartridge::{Cartridge, MapperType, Mirroring};
use crate::ppu::address::Address;
use crate::ppu::ctrl::Control;
use crate::ppu::mask::Mask;
use crate::ppu::memory::{palette_slot, shade, VideoMemory};
use crate::ppu::oam::Oam;
use crate::ppu::palette::{base_color, PaletteTable, Rgba};
use crate::ppu::pipeline::{A12Watch, Background};
use crate::ppu::sprites::SpriteUnit;
use crate::ppu::status::Status;
use crate::util::bit::{bit16, bit_at, bits16, bits_abs16};

pub mod address;
pub mod ctrl;
pub mod mask;
pub mod memory;
pub mod mmc3;
pub mod oam;
pub mod palette;
pub mod pipeline;
pub mod pipeline_bits;
pub mod registers;
pub mod sprites;
pub mod status;
pub mod timing;
pub mod vblank;

verus! {

/// A request for the non-maskable interrupt.
#[derive(Clone, Copy, Debug)]
pub struct Nmi;

/// The registers the processor reaches through the eight ports, and the
/// interrupt bookkeeping.
#[derive(Clone, Copy, Debug)]
pub struct Registers {
    /// The read buffer of the data port.
    pub buf: u8,
    /// The value last seen on the register bus.
    pub bus: u8,
    pub ctrl: Control,
    pub mask: Mask,
    pub status: Status,
    pub t: Address,
    pub v: Address,
    pub w: bool,
    pub x: u8,
    /// Whether a request latched during this vertical blank is waiting for
    /// the processor.
    pub nmi_occurred: bool,
    /// Number of interrupt requests not yet taken by the processor.
    pub interrupts: usize,
    /// Dots left until a completed address write reaches `v`, while `ppuscroll_armed`.
    pub ppuscroll_delay: u8,
    pub ppuscroll_armed: bool,
}

impl Registers {
    /// The scroll registers are in range.
    pub open spec fn wf(self) -> bool {
        self.v.wf() && self.t.wf() && self.x <= 7 && self.ctrl.wf()
    }

    /// Whether background or sprites are shown.
    pub open spec fn rendering(self) -> bool {
        self.mask.show_background || self.mask.show_sprites
    }

    /// The registers with one more interrupt request; the count stops at
    /// the largest machine word.
    pub open spec fn with_request(self) -> Registers {
        Registers {
            interrupts: if self.interrupts < usize::MAX {
                (self.interrupts + 1) as usize
            } else {
                self.interrupts
            },
            ..self
        }
    }

    /// The registers with the interrupt latched: one more request, marked
    /// as belonging to this vertical blank.
    pub open spec fn with_latch(self) -> Registers {
        (Registers { nmi_occurred: true, ..self }).with_request()
    }

    /// The registers with the request of this vertical blank taken back, if
    /// one is waiting.
    pub open spec fn without_latch(self) -> Registers {
        Registers {
            nmi_occurred: false,
            interrupts: if self.nmi_occurred && self.interrupts > 0 {
                (self.interrupts - 1) as usize
            } else {
                self.interrupts
            },
            ..self
        }
    }

    /// The registers at power-up: interrupt enabled, everything shown.
    pub fn new() -> (r: Registers)
        ensures
            r.wf(),
            r == (Registers {
                buf: 0,
                bus: 0,
                ctrl: r.ctrl,
                mask: r.mask,
                status: Status { vblank: false, spr_0_hit: false, spr_overflow: false },
                t: Address { addr: 0 },
                v: Address { addr: 0 },
                w: false,
                x: 0,
                nmi_occurred: false,
                interrupts: 0,
                ppuscroll_delay: 0,
                ppuscroll_armed: false,
            }),
            r.ctrl == (Control {
                nmi: true,
                master_slave: false,
                size: 64,
                bg_pt_addr: 0,
                spr_pt_addr: 0,
                inc_vert: false,
                base_nt_addr: 0x2000,
            }),
            r.mask == (Mask {
                emphasize_blue: false,
                emphasize_green: false,
                emphasize_red: false,
                show_sprites: true,
                show_background: true,
                show_sprites_leftmost_8: true,
                show_background_leftmost_8: true,
                greyscale: false,
            }),
    {
        Registers {
            buf: 0,
            bus: 0,
            ctrl: Control::new(),
            mask: Mask::new(),
            status: Status::new(),
            t: Address::new(),
            v: Address::new(),
            w: false,
            x: 0,
            nmi_occurred: false,
            interrupts: 0,
            ppuscroll_delay: 0,
            ppuscroll_armed: false,
        }
    }

    /// Records one more interrupt request.
    pub fn request_interrupt(&mut self)
        ensures
            *final(self) == old(self).with_request(),
            old(self).wf() ==> final(self).wf(),
    {
        if self.interrupts < usize::MAX {
            self.interrupts = self.interrupts + 1;
        }
    }

    /// Latches the interrupt for this vertical blank.
    pub fn latch_interrupt(&mut self)
        ensures
            *final(self) == old(self).with_latch(),
            old(self).wf() ==> final(self).wf(),
    {
        self.nmi_occurred = true;
        self.request_interrupt();
    }

    /// Takes the request of this vertical blank back, if one is waiting.
    pub fn withdraw_interrupt(&mut self)
        ensures
            *final(self) == old(self).without_latch(),
            old(self).wf() ==> final(self).wf(),
    {
        if self.nmi_occurred && self.interrupts > 0 {
            self.interrupts = self.interrupts - 1;
        }
        self.nmi_occurred = false;
    }
}

/// Where the beam is.
#[derive(Clone, Copy, Debug)]
pub struct Beam {
    pub dot: u16,
    pub scanline: u16,
    /// The number of pixels of this line that were composed.
    pub sx: u16,
    pub frame: usize,
    pub odd: bool,
}

impl Beam {
    /// Dot and scanline are in bounds, and no more pixels were composed
    /// than dots have passed.
    pub open spec fn wf(self) -> bool {
        &&& self.dot <= 340
        &&& self.scanline <= 261
        &&& self.sx <= 256
        &&& (self.dot == 0 ==> self.sx == 0)
        &&& (1 <= self.dot <= 256 ==> self.sx < self.dot)
    }

    /// The beam one dot on: after dot 340 the next line starts, after line
    /// 261 the next frame.
    pub open spec fn after_advance(self) -> Beam {
        if self.dot == 340 {
            Beam {
                dot: 0,
                scanline: if self.scanline == 261 {
                    0
                } else {
                    (self.scanline + 1) as u16
                },
                sx: 0,
                ..self
            }
        } else {
            Beam { dot: (self.dot + 1) as u16, ..self }
        }
    }

    /// The beam at power-up: start of the pre-render line of frame 1.
    pub fn new() -> (b: Beam)
        ensures
            b == (Beam { dot: 0, scanline: 261, sx: 0, frame: 1, odd: false }),
            b.wf(),
    {
        Beam { dot: 0, scanline: 261, sx: 0, frame: 1, odd: false }
    }

    /// Moves the beam one dot on.
    pub fn advance(&mut self)
        requires
            old(self).dot <= 340,
            old(self).scanline <= 261,
            old(self).sx <= 256,
            old(self).dot == 0 ==> old(self).sx == 0,
            1 <= old(self).dot <= 256 ==> old(self).sx <= old(self).dot,
        ensures
            *final(self) == old(self).after_advance(),
            final(self).wf(),
    {
        self.dot = (self.dot + 1) % 341;
        if self.dot == 0 {
            self.scanline = (self.scanline + 1) % 262;
            self.sx = 0;
        }
    }
}

/// The picture unit.
#[derive(Clone)]
pub struct Ppu {
    pub mem: VideoMemory,
    pub regs: Registers,
    pub beam: Beam,
    pub a12: A12Watch,
    pub bg: Background,
    pub spr: SpriteUnit,
    pub oam: Oam,
    /// The picture: 240 lines of 256 packed colours.
    pub fb: [u32; 61440],
    pub palette: PaletteTable,
    pub mapper_type: MapperType,
}

impl Ppu {
    /// Every part is well formed.
    pub open spec fn wf(self) -> bool {
        &&& self.mem.wf()
        &&& self.regs.wf()
        &&& self.beam.wf()
        &&& self.bg.wf()
        &&& self.spr.wf()
        &&& self.oam.wf()
        &&& self.palette.wf()
    }

    /// Whether `self` is the unit at power-up for the given character
    /// memory, name-table arrangement and mapper kind.
    pub open spec fn is_initial(
        self,
        chr_rom: Vec<u8>,
        mirroring: Mirroring,
        mapper_type: MapperType,
    ) -> bool {
        &&& self.mem.is_initial(chr_rom, mirroring, mapper_type)
        &&& self.regs.buf == 0 && self.regs.bus == 0
        &&& self.regs.ctrl == (Control {
            nmi: true,
            master_slave: false,
            size: 64,
            bg_pt_addr: 0,
            spr_pt_addr: 0,
            inc_vert: false,
            base_nt_addr: 0x2000,
        })
        &&& self.regs.mask == (Mask {
            emphasize_blue: false,
            emphasize_green: false,
            emphasize_red: false,
            show_sprites: true,
            show_background: true,
            show_sprites_leftmost_8: true,
            show_background_leftmost_8: true,
            greyscale: false,
        })
        &&& self.regs.status == (Status { vblank: false, spr_0_hit: false, spr_overflow: false })
        &&& self.regs.t.addr == 0 && self.regs.v.addr == 0 && !self.regs.w && self.regs.x == 0
        &&& !self.regs.nmi_occurred && self.regs.interrupts == 0
        &&& self.regs.ppuscroll_delay == 0 && !self.regs.ppuscroll_armed
        &&& self.beam == (Beam { dot: 0, scanline: 261, sx: 0, frame: 1, odd: false })
        &&& self.a12 == (A12Watch { a12: false, a12_filter: 9, a12_rising: false, old_a12: false })
        &&& self.bg.at_hi_latch == 0 && self.bg.at_latch == 0 && self.bg.at_lo_latch == 0
        &&& self.bg.nt_latch == 0 && self.bg.pt_hi_latch == 0 && self.bg.pt_lo_latch == 0
        &&& forall|i: int|
            0 <= i < 2 ==> self.bg.at_shifters[i].data == 0 && self.bg.pt_shifters[i].data == 0
        &&& self.spr.cur_spr is None && self.spr.spr0_present && self.spr.spr_idx == 0
        &&& forall|i: int|
            0 <= i < 8 ==> !self.spr.spr_active[i] && self.spr.spr_counters[i] == 0
                && self.spr.spr_shift_count[i] == 0 && self.spr.spr_latches[i].palette == 0
                && !self.spr.spr_latches[i].priority && !self.spr.spr_latches[i].flip_horiz
                && !self.spr.spr_latches[i].flip_vert && self.spr.spr_pt_shifters[i][0].data == 0
                && self.spr.spr_pt_shifters[i][1].data == 0
        &&& self.oam.count == 0 && self.oam.addr == 0 && !self.oam.overflow
        &&& forall|i: int| 0 <= i < 256 ==> self.oam.buffer[i] == 0
        &&& forall|i: int| 0 <= i < 61440 ==> self.fb[i] == 0
        &&& self.palette.selected == 0
        &&& forall|p: int, i: int|
            0 <= p < 8 && 0 <= i < 64 ==> #[trigger] self.palette.palettes[p].0[i] == base_color(i)
        &&& self.mapper_type == mapper_type
    }

    /// What a read of the picture bus at `addr` returns and leaves behind.
    /// A palette read returns the entry as shown and refills the read
    /// buffer from the address 0x1000 below the current video address.
    #[verifier::opaque]
    pub open spec fn reading(self, addr: u16) -> (u8, Ppu) {
        let a = (addr % 0x4000) as u16;
        if a < 0x3F00 {
            let plain = self.mem.reading_plain(a);
            (plain.0, Ppu { mem: plain.1, ..self })
        } else {
            let under = (((self.regs.v.addr + 0x1_0000 - 0x1000) % 0x1_0000) % 0x4000) as u16;
            let plain = self.mem.reading_plain(under);
            (
                shade(self.mem.pram[palette_slot(a)], self.regs.mask.greyscale),
                Ppu { mem: plain.1, regs: Registers { buf: plain.0, ..self.regs }, ..self },
            )
        }
    }

    /// The unit after `data` was written to the picture bus at `addr`.
    #[verifier::opaque]
    pub open spec fn after_write(self, addr: u16, data: u8) -> Ppu {
        Ppu { mem: self.mem.after_write(addr, data), ..self }
    }

    /// The unit after address line 12 was seen at `level`; only the
    /// scanline-counting mapper watches.
    pub open spec fn after_watch_a12(self, level: bool) -> Ppu {
        Ppu { a12: self.a12.after_watch(level, self.mem.mmc3 is Some), ..self }
    }

    /// A fetch from `addr` that shows its bit 12 to the address watcher first.
    #[verifier::opaque]
    pub open spec fn fetching_watched(self, addr: u16) -> (u8, Ppu) {
        self.after_watch_a12(bit_at(addr as int, 12)).reading(addr)
    }

    /// The address of the name-table byte for the current tile.
    pub open spec fn nt_address(self) -> u16 {
        (0x2000 + self.regs.v.addr % 0x1000) as u16
    }

    /// The address of the attribute byte for the current tile: the name
    /// table's attribute area, indexed by coarse Y over 4 and coarse X over 4.
    pub open spec fn at_address(self) -> u16 {
        (0x23C0 + self.regs.v.nametable() * 0x400 + ((self.regs.v.addr / 128) % 8) * 8 + (
        self.regs.v.addr / 4) % 8) as u16
    }

    /// The address of a background pattern byte of tile `nt_byte`; `plane` is 0 or 8.
    pub open spec fn bg_pattern_address(self, nt_byte: u8, plane: int) -> u16 {
        (self.regs.ctrl.bg_pt_addr + nt_byte * 16 + self.regs.v.fine_y() + plane) as u16
    }

    pub open spec fn fetching_nt(self) -> (u8, Ppu) {
        self.fetching_watched(self.nt_address())
    }

    pub open spec fn fetching_at(self) -> (u8, Ppu) {
        self.reading(self.at_address())
    }

    pub open spec fn fetching_pt_low(self, nt_byte: u8) -> (u8, Ppu) {
        self.fetching_watched(self.bg_pattern_address(nt_byte, 0))
    }

    pub open spec fn fetching_pt_high(self, nt_byte: u8) -> (u8, Ppu) {
        self.fetching_watched(self.bg_pattern_address(nt_byte, 8))
    }

    /// Pattern table, tile and row for row `offset` of the sprite with tile
    /// byte `nt_byte`.  A 16-pixel sprite takes its table from bit 0 of the
    /// tile byte and its second tile for rows past 7.
    pub open spec fn sprite_pattern(self, nt_byte: u8, offset: u16) -> (u16, u8, u16) {
        if self.regs.ctrl.size / 8 == 16 {
            (
                if nt_byte % 2 == 1 {
                    0x1000
                } else {
                    0
                },
                if offset > 7 {
                    (nt_byte - nt_byte % 2 + 1) as u8
                } else {
                    (nt_byte - nt_byte % 2) as u8
                },
                offset % 8,
            )
        } else {
            (self.regs.ctrl.spr_pt_addr, nt_byte, offset % 8)
        }
    }

    /// The address of a sprite pattern byte; `plane` is 0 or 8.
    pub open spec fn sprite_pattern_address(self, nt_byte: u8, offset: u16, plane: int) -> u16 {
        let pattern = self.sprite_pattern(nt_byte, offset);
        (pattern.0 + pattern.1 * 16 + pattern.2 + plane) as u16
    }

    pub open spec fn fetching_spr_low(self, nt_byte: u8, offset: u16) -> (u8, Ppu) {
        self.fetching_watched(self.sprite_pattern_address(nt_byte, offset, 0))
    }

    pub open spec fn fetching_spr_high(self, nt_byte: u8, offset: u16) -> (u8, Ppu) {
        self.fetching_watched(self.sprite_pattern_address(nt_byte, offset, 8))
    }

    /// The unit after frame-buffer entry `x + 256 y` took the colour `rgb`, or 0 for none.
    pub open spec fn after_draw_pixel(self, rgb: Option<Rgba>, x: usize, y: usize) -> Ppu {
        Ppu {
            fb: vstd::array::spec_array_update(
                self.fb,
                x + y * 256,
                match rgb {
                    Some(c) => c.packed(),
                    None => 0,
                },
            ),
            ..self
        }
    }

    /// The unit at power-up, with the character memory and the name-table
    /// arrangement of `cartridge`.
    pub fn new(cartridge: Cartridge, mapper_type: MapperType) -> (p: Ppu)
        requires
            cartridge.chr_rom is Some,
        ensures
            p.is_initial(cartridge.chr_rom->0, cartridge.mirroring, mapper_type),
            p.wf(),
    {
        let mirroring = cartridge.mirroring;
        let chr_rom: Vec<u8> = cartridge.chr_rom.unwrap();
        Ppu {
            mem: VideoMemory::new(chr_rom, mirroring, mapper_type),
            regs: Registers::new(),
            beam: Beam::new(),
            a12: A12Watch::new(),
            bg: Background::new(),
            spr: SpriteUnit::new(),
            oam: Oam::new(),
            fb: [0; 61440],
            palette: PaletteTable::new(),
            mapper_type,
        }
    }

    /// Changes the name-table arrangement.
    pub fn set_mirroring_mode(&mut self, mode: Mirroring)
        ensures
            *final(self) == (Ppu {
                mem: VideoMemory { mirroring: mode, ..old(self).mem },
                ..*old(self)
            }),
    {
        self.mem.set_mirroring_mode(mode);
    }

    /// Reads the picture bus.
    pub fn read(&mut self, addr: u16) -> (r: u8)
        requires
            old(self).wf(),
        ensures
            (r, *final(self)) == old(self).reading(addr),
            final(self).wf(),
            final(self).beam == old(self).beam,
    {
        proof {
            reveal(Ppu::reading);
        }
        let addr: u16 = addr % 0x4000;
        if addr < 0x3F00 {
            self.mem.read_plain(addr)
        } else {
            let data: u8 = self.mem.pram[VideoMemory::palette_index(addr)];
            let under: u16 = crate::util::sub16(self.regs.v.address(), 0x1000) % 0x4000;
            let vram: u8 = self.mem.read_plain(under);
            self.regs.buf = vram;
            if self.regs.mask.greyscale {
                ((data / 16) % 4) * 16
            } else {
                data
            }
        }
    }

    /// Writes the picture bus.
    pub fn write(&mut self, addr: u16, data: u8)
        requires
            old(self).wf(),
        ensures
            *final(self) == old(self).after_write(addr, data),
            final(self).wf(),
            final(self).beam == old(self).beam,
    {
        proof {
            reveal(Ppu::after_write);
        }
        self.mem.write(addr, data);
    }

    /// Shows the level of address line 12 to the watcher.
    pub fn watch_a12(&mut self, level: bool)
        ensures
            *final(self) == old(self).after_watch_a12(level),
            old(self).wf() ==> final(self).wf(),
            final(self).beam == old(self).beam,
    {
        let watching: bool = self.mem.mmc3.is_some();
        self.a12.watch(level, watching);
    }

    /// Reads `addr` after showing its bit 12 to the address watcher.
    pub fn fetch_watched(&mut self, addr: u16) -> (r: u8)
        requires
            old(self).wf(),
        ensures
            (r, *final(self)) == old(self).fetching_watched(addr),
            final(self).wf(),
            final(self).beam == old(self).beam,
    {
        proof {
            reveal(Ppu::fetching_watched);
        }
        self.watch_a12(bit16(addr, 12));
        self.read(addr)
    }

    /// Fetches the attribute byte of the current tile.
    pub fn fetch_at_byte(&mut self) -> (r: u8)
        requires
            old(self).wf(),
        ensures
            (r, *final(self)) == old(self).fetching_at(),
            final(self).wf(),
            final(self).beam == old(self).beam,
    {
        let v: u16 = self.regs.v.address();
        let addr: u16 = 0x23C0 + bits_abs16(v, 10, 11) + bits16(v, 7, 9) * 8 + bits16(v, 2, 4);
        self.read(addr)
    }

    /// Fetches the name-table byte of the current tile.
    pub fn fetch_nt_byte(&mut self) -> (r: u8)
        requires
            old(self).wf(),
        ensures
            (r, *final(self)) == old(self).fetching_nt(),
            final(self).wf(),
            final(self).beam == old(self).beam,
    {
        let v: u16 = self.regs.v.address();
        let addr: u16 = 0x2000 + bits_abs16(v, 0, 11);
        self.fetch_watched(addr)
    }

    /// Fetches the low pattern byte of background tile `nt_byte`.
    pub fn fetch_pt_low(&mut self, nt_byte: u8) -> (r: u8)
        requires
            old(self).wf(),
        ensures
            (r, *final(self)) == old(self).fetching_pt_low(nt_byte),
            final(self).wf(),
            final(self).beam == old(self).beam,
    {
        let pt: u16 = self.regs.ctrl.bg_pt_addr;
        let tile_idx: u16 = nt_byte as u16;
        let addr: u16 = pt + tile_idx * 16 + bits16(self.regs.v.address(), 12, 14);
        self.fetch_watched(addr)
    }

    /// Fetches the high pattern byte of background tile `nt_byte`.
    pub fn fetch_pt_high(&mut self, nt_byte: u8) -> (r: u8)
        requires
            old(self).wf(),
        ensures
            (r, *final(self)) == old(self).fetching_pt_high(nt_byte),
            final(self).wf(),
            final(self).beam == old(self).beam,
    {
        let pt: u16 = self.regs.ctrl.bg_pt_addr;
        let tile_idx: u16 = nt_byte as u16;
        let addr: u16 = pt + tile_idx * 16 + bits16(self.regs.v.address(), 12, 14) + 8;
        self.fetch_watched(addr)
    }

    /// Pattern table, tile and row for a row of a sprite.
    pub fn nt_byte_to_pt_addr(&self, nt_byte: u8, offset: u16) -> (r: (u16, u8, u16))
        requires
            self.regs.ctrl.wf(),
        ensures
            r == self.sprite_pattern(nt_byte, offset),
            r.0 <= 0x1000,
            r.2 <= 7,
    {
        let spr_height: u8 = self.regs.ctrl.size / 8;
        let pt: u16 = if spr_height == 16 {
            if nt_byte % 2 == 1 {
                0x1000
            } else {
                0
            }
        } else {
            self.regs.ctrl.spr_pt_addr
        };
        let tile_idx: u8 = if spr_height == 16 {
            let nt_byte: u8 = nt_byte - nt_byte % 2;
            if offset > 7 {
                nt_byte + 1
            } else {
                nt_byte
            }
        } else {
            nt_byte
        };
        let offset: u16 = offset % 8;
        (pt, tile_idx, offset)
    }

    /// Fetches the pattern byte at row `offset` of tile `nt_byte` in table `pt`.
    pub fn spr_fetch_pt(&mut self, pt: u16, nt_byte: u8, offset: u16) -> (r: u8)
        requires
            old(self).wf(),
            pt <= 0x1000,
            offset <= 15,
        ensures
            (r, *final(self)) == old(self).fetching_watched((pt + nt_byte * 16 + offset) as u16),
            final(self).wf(),
            final(self).beam == old(self).beam,
    {
        let tile_idx: u16 = nt_byte as u16;
        let addr: u16 = pt + tile_idx * 16 + offset;
        self.fetch_watched(addr)
    }

    /// Fetches the low pattern byte of a sprite row.
    pub fn spr_fetch_pt_low(&mut self, nt_byte: u8, offset: u16) -> (r: u8)
        requires
            old(self).wf(),
        ensures
            (r, *final(self)) == old(self).fetching_spr_low(nt_byte, offset),
            final(self).wf(),
            final(self).beam == old(self).beam,
    {
        let (pt, tile_idx, offset) = self.nt_byte_to_pt_addr(nt_byte, offset);
        self.spr_fetch_pt(pt, tile_idx, offset)
    }

    /// Fetches the high pattern byte of a sprite row.
    pub fn spr_fetch_pt_high(&mut self, nt_byte: u8, offset: u16) -> (r: u8)
        requires
            old(self).wf(),
        ensures
            (r, *final(self)) == old(self).fetching_spr_high(nt_byte, offset),
            final(self).wf(),
            final(self).beam == old(self).beam,
    {
        let (pt, tile_idx, offset) = self.nt_byte_to_pt_addr(nt_byte, offset);
        self.spr_fetch_pt(pt, tile_idx, offset + 8)
    }

    /// Stores a colour, or 0 for none, as pixel `x` of line `y`.
    pub fn draw_pixel(&mut self, rgb: Option<Rgba>, x: usize, y: usize)
        requires
            x < 256,
            y < 240,
            old(self).wf(),
        ensures
            *final(self) == old(self).after_draw_pixel(rgb, x, y),
            final(self).wf(),
            final(self).beam == old(self).beam,
    {
        let idx: usize = x + y * 256;
        self.fb[idx] = match rgb {
            Some(c) => c.to_u32(),
            None => 0,
        };
    }
}

/// A value written to one of the palette addresses 0x3F10, 0x3F14, 0x3F18,
/// 0x3F1C is read back at 0x3F00, 0x3F04, 0x3F08, 0x3F0C, and the other way
/// round; in greyscale both addresses of a pair show the same two bits of it.
pub proof fn lemma_palette_mirror(p: Ppu, k: int, data: u8)
    requires
        0 <= k < 4,
    ensures
        ({
            let low = (0x3F00 + 4 * k) as u16;
            let high = (0x3F10 + 4 * k) as u16;
            let shown = shade(data, p.regs.mask.greyscale);
            &&& p.after_write(high, data).reading(low).0 == shown
            &&& p.after_write(low, data).reading(high).0 == shown
            &&& p.after_write(high, data).reading(high).0 == shown
            &&& p.after_write(low, data).reading(low).0 == shown
        }),
{
    reveal(Ppu::after_write);
    reveal(Ppu::reading);
    reveal(VideoMemory::after_write);
    reveal(VideoMemory::after_write_palette);
    let low = (0x3F00 + 4 * k) as u16;
    let high = (0x3F10 + 4 * k) as u16;
    assert(palette_slot(low) == 4 * k);
    assert(palette_slot(high) == 4 * k);
    assert(p.mem.after_write(high, data).pram[4 * k] == data);
    assert(p.mem.after_write(low, data).pram[4 * k] == data);
}

} // verus!
