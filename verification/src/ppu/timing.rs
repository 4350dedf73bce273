//! What the picture unit does on each dot: fetches, pixel composition,
//! sprite evaluation, scroll updates and the vertical-blank flag.

use vstd::prelude::*;
use crate::ppu::address::Address;
use crate::ppu::oam::Oam;
use crate::ppu::palette::{PaletteTable, Rgba};
use crate::ppu::pipeline::Background;
use crate::ppu::sprites::SpriteUnit;
use crate::ppu::status::Status;
use crate::ppu::{Beam, Ppu, Registers};
use crate::util::bit::{bit16, bit_at, bits_abs16, field_in_place};

verus! {

/// The palette entry shown for a background pixel and a sprite pixel: the
/// sprite wins over a transparent background, a sprite behind the
/// background loses to an opaque one, and a layer that is off shows nothing.
pub open spec fn composed(bg: u8, spr: Option<(usize, u8, bool)>, show_bg: bool, show_spr: bool) -> u8 {
    if show_bg && show_spr {
        match spr {
            None => bg,
            Some(s) => if bg == 0 {
                s.1
            } else if s.2 {
                bg
            } else {
                s.1
            },
        }
    } else if show_bg {
        bg
    } else if show_spr {
        match spr {
            Some(s) => s.1,
            None => 0,
        }
    } else {
        0
    }
}

/// The address `v` with coarse X (bits 0-4) and the horizontal name-table
/// bit (bit 10) of `t`.
pub open spec fn horizontal_copy(v: Address, t: Address) -> int {
    field_in_place(v.addr as int, 11, 14, 16) + field_in_place(v.addr as int, 5, 9, 16)
        + field_in_place(t.addr as int, 10, 10, 16) + field_in_place(t.addr as int, 0, 4, 16)
}

/// The address `v` with fine Y and the vertical name-table bit (bits 11-14)
/// and coarse Y (bits 5-9) of `t`.
pub open spec fn vertical_copy(v: Address, t: Address) -> int {
    field_in_place(t.addr as int, 11, 14, 16) + field_in_place(t.addr as int, 5, 9, 16)
        + field_in_place(v.addr as int, 10, 10, 16) + field_in_place(v.addr as int, 0, 4, 16)
}

impl Beam {
    /// Well-formedness between the composition of a pixel and the advance
    /// of the beam: the pixel of the current dot may already be counted.
    pub open spec fn wf_mid(self) -> bool {
        &&& self.dot <= 340
        &&& self.scanline <= 261
        &&& self.sx <= 256
        &&& (self.dot == 0 ==> self.sx == 0)
        &&& (1 <= self.dot <= 256 ==> self.sx <= self.dot)
    }
}

impl Ppu {
    /// Every part but the beam is well formed.
    pub open spec fn wf_parts(self) -> bool {
        &&& self.mem.wf()
        &&& self.regs.wf()
        &&& self.bg.wf()
        &&& self.spr.wf()
        &&& self.oam.wf()
        &&& self.palette.wf()
    }

    pub open spec fn bg_masked(self) -> bool {
        self.beam.sx < 8 && !self.regs.mask.show_background_leftmost_8
    }

    pub open spec fn spr_masked(self) -> bool {
        self.beam.sx < 8 && !self.regs.mask.show_sprites_leftmost_8
    }

    /// Whether the pixel being composed is a hit of sprite zero: both
    /// layers shown and opaque, the sprite in slot 0 is sprite zero, and
    /// the pixel is not the last of the line.
    pub open spec fn sprite_zero_hit(self, bg: u8, spr: Option<(usize, u8, bool)>) -> bool {
        &&& self.regs.mask.show_background
        &&& self.regs.mask.show_sprites
        &&& bg != 0
        &&& spr matches Some(s)
        &&& s.0 == 0
        &&& self.spr.spr0_present
        &&& self.beam.sx != 255
    }

    /// The unit with the video address replaced.
    pub open spec fn with_v(self, addr: u16) -> Ppu {
        Ppu { regs: Registers { v: Address { addr }, ..self.regs }, ..self }
    }

    /// The palette entry composed for the current dot, and the unit after
    /// the sprites moved on and a hit of sprite zero was flagged.
    #[verifier::opaque]
    pub open spec fn composing(self) -> (u8, Ppu) {
        let bg = self.bg.pixel(self.regs.x, self.bg_masked());
        let sp = self.spr.pixel(self.spr_masked());
        (
            composed(bg, sp, self.regs.mask.show_background, self.regs.mask.show_sprites),
            Ppu {
                spr: self.spr.after_pixel(self.spr_masked()),
                regs: Registers {
                    status: Status {
                        spr_0_hit: self.regs.status.spr_0_hit || self.sprite_zero_hit(bg, sp),
                        ..self.regs.status
                    },
                    ..self.regs
                },
                ..self
            },
        )
    }

    /// The unit after palette entry `pixel` was shown at the current
    /// position with the colour table of the emphasis bits; the lines
    /// above 8 and below 231 are not stored.
    #[verifier::opaque]
    pub open spec fn after_show(self, pixel: u8) -> Ppu {
        if 8 <= self.beam.scanline <= 231 {
            let entry = (self.mem.pram[pixel as int] % 64) as u8;
            let idx = if self.regs.mask.greyscale {
                ((entry / 16) % 4) * 16
            } else {
                entry as int
            };
            let table = PaletteTable {
                selected: self.regs.mask.emphasis() as usize,
                ..self.palette
            };
            (Ppu { palette: table, ..self }).after_draw_pixel(
                Some(table.color_at(idx)),
                self.beam.sx as usize,
                self.beam.scanline as usize,
            )
        } else {
            self
        }
    }

    /// The unit after one pixel was composed and shown.
    #[verifier::opaque]
    pub open spec fn after_render(self) -> Ppu {
        let c = self.composing();
        c.1.after_show(c.0)
    }

    /// The unit with a fetched name-table byte latched.
    pub open spec fn latching_nt(f: (u8, Ppu)) -> Ppu {
        Ppu { bg: Background { nt_latch: f.0, ..f.1.bg }, ..f.1 }
    }

    /// The unit after the background fetch of the current dot, on a dot
    /// outside the sprite fetches.  Within each group of eight dots the
    /// name-table byte, the attribute byte and the two pattern bytes are
    /// fetched on dots 1, 3, 5, 7; on dot 0 of the group the video address
    /// moves one tile right; on dot 256 it also moves one row down.
    #[verifier::opaque]
    pub open spec fn after_bg_fetch(self, rendering: bool) -> Ppu {
        let dot = self.beam.dot;
        let in_bg = (1 <= dot <= 256) || (321 <= dot <= 336);
        if dot == 1 || dot == 321 {
            Self::latching_nt(self.fetching_nt())
        } else if in_bg && dot % 8 == 1 {
            Self::latching_nt((Ppu { bg: self.bg.after_reload(), ..self }).fetching_nt())
        } else if in_bg && dot % 8 == 3 {
            let f = self.fetching_at();
            Ppu { bg: f.1.bg.after_attribute(f.0, f.1.regs.v.addr), ..f.1 }
        } else if in_bg && dot % 8 == 5 {
            let f = self.fetching_pt_low(self.bg.nt_latch);
            Ppu { bg: Background { pt_lo_latch: f.0, ..f.1.bg }, ..f.1 }
        } else if in_bg && dot % 8 == 7 {
            let f = self.fetching_pt_high(self.bg.nt_latch);
            Ppu { bg: Background { pt_hi_latch: f.0, ..f.1.bg }, ..f.1 }
        } else if rendering && dot % 8 == 0 && ((1 <= dot <= 255) || (328 <= dot <= 336)) {
            self.with_v(self.regs.v.horizontal_successor() as u16)
        } else if rendering && dot == 256 {
            let h = self.with_v(self.regs.v.horizontal_successor() as u16);
            h.with_v(h.regs.v.vertical_successor() as u16)
        } else if dot == 337 {
            (Ppu { bg: self.bg.after_reload(), ..self }).fetching_nt().1
        } else if dot == 339 {
            self.fetching_nt().1
        } else {
            self
        }
    }

    /// The unit after a pattern byte of the current sprite was fetched into
    /// shifter `plane`; an empty slot fetches tile 0xFF and stays empty.
    #[verifier::opaque]
    pub open spec fn after_sprite_pattern(self, plane: int) -> Ppu {
        match self.spr.cur_spr {
            Some(s) => {
                let row = SpriteUnit::row_of(
                    s,
                    self.beam.scanline,
                    (self.regs.ctrl.size / 8) as u16,
                );
                let f = if plane == 0 {
                    self.fetching_spr_low(s.tile_idx, row)
                } else {
                    self.fetching_spr_high(s.tile_idx, row)
                };
                Ppu { spr: f.1.spr.after_store(plane, f.0), ..f.1 }
            },
            None => if self.spr.spr_idx < 8 {
                let f = if plane == 0 {
                    self.fetching_spr_low(0xFF, 0)
                } else {
                    self.fetching_spr_high(0xFF, 0)
                };
                Ppu { spr: f.1.spr.after_store(plane, f.0), ..f.1 }
            } else {
                self
            },
        }
    }

    /// The unit at the start of the sprite fetches, dot 257: the shifters
    /// are reloaded, the horizontal scroll is copied from `t` when
    /// rendering, and the sprite slots are cleared.
    #[verifier::opaque]
    pub open spec fn after_sprite_start(self, rendering: bool) -> Ppu {
        let r = Ppu { bg: self.bg.after_reload(), ..self };
        let r = if rendering {
            r.with_v(horizontal_copy(r.regs.v, r.regs.t) as u16)
        } else {
            r
        };
        Ppu { spr: r.spr.after_start_line(), ..r }
    }

    /// The unit after the sprite fetch of the current dot, one of 257 to
    /// 320.  Each group of eight dots fills one slot: the sprite is taken
    /// from the list on dot 1, latched on dot 3, and its two pattern bytes
    /// are fetched on dots 5 and 7.
    #[verifier::opaque]
    pub open spec fn after_sprite_fetch(self, rendering: bool) -> Ppu {
        let phase = self.beam.dot % 8;
        if phase == 1 {
            let s0 = if self.beam.dot == 257 {
                self.after_sprite_start(rendering)
            } else {
                self
            };
            let f = s0.fetching_nt();
            Ppu { spr: f.1.spr.after_select(f.1.oam), ..f.1 }
        } else if phase == 3 {
            let f = self.fetching_nt();
            Ppu { spr: f.1.spr.after_latch(), ..f.1 }
        } else if phase == 5 {
            self.after_sprite_pattern(0)
        } else if phase == 7 {
            let s = self.after_sprite_pattern(1);
            Ppu { spr: s.spr.after_advance(), ..s }
        } else {
            self
        }
    }

    /// The unit after the sprites for the next line were evaluated, on dot 65.
    #[verifier::opaque]
    pub open spec fn after_evaluation(self) -> Ppu {
        let oam = self.oam.after_evaluating(self.beam.scanline + 1, self.regs.ctrl.size, 64);
        Ppu {
            oam,
            regs: Registers {
                status: Status {
                    spr_overflow: self.regs.status.spr_overflow || oam.overflow,
                    ..self.regs.status
                },
                ..self.regs
            },
            spr: SpriteUnit { spr_idx: 0, ..self.spr },
            ..self
        }
    }

    /// The unit after the pixel of the current dot, one of 1 to 256: the X
    /// counters step, the pixel is composed, and on dot 65 with rendering
    /// on the sprites of the next line are evaluated.
    #[verifier::opaque]
    pub open spec fn after_pixel_step(self, rendering: bool) -> Ppu {
        let r = (Ppu { spr: self.spr.after_count_slots(8), ..self }).after_render();
        let r = Ppu { beam: Beam { sx: (r.beam.sx + 1) as u16, ..r.beam }, ..r };
        if rendering && r.beam.dot == 65 {
            r.after_evaluation()
        } else {
            r
        }
    }

    /// The unit after the work of one dot of a visible line.
    #[verifier::opaque]
    pub open spec fn after_visible_dot(self, rendering: bool) -> Ppu {
        let dot = self.beam.dot;
        let s1 = if 257 <= dot <= 320 {
            self.after_sprite_fetch(rendering)
        } else {
            self.after_bg_fetch(rendering)
        };
        let s2 = if dot <= 256 {
            s1.after_pixel_step(rendering)
        } else {
            s1
        };
        if dot <= 336 {
            Ppu { bg: s2.bg.after_shift(), ..s2 }
        } else {
            s2
        }
    }

    /// The unit after the fetches of one dot of a line on which no pixel
    /// is composed: the sprite fetch on dots 257 to 320, else the
    /// background fetch, and the shift of the background registers up to
    /// dot 336.
    #[verifier::opaque]
    pub open spec fn after_fetch_dot(self, rendering: bool) -> Ppu {
        let dot = self.beam.dot;
        let s1 = if 257 <= dot <= 320 {
            self.after_sprite_fetch(rendering)
        } else {
            self.after_bg_fetch(rendering)
        };
        if dot <= 336 {
            Ppu { bg: s1.bg.after_shift(), ..s1 }
        } else {
            s1
        }
    }

    /// The unit after what the pre-render line does before its fetches: on
    /// dot 1 the three status flags fall and the list of sprites is
    /// emptied, as no sprite shows on the first line; on dots 280 to 304
    /// the vertical scroll is copied from `t` when rendering; on dot 339
    /// the frame ends, one dot early on odd frames when rendering.
    #[verifier::opaque]
    pub open spec fn after_prerender_extra(self, rendering: bool) -> Ppu {
        let dot = self.beam.dot;
        if dot == 1 {
            Ppu {
                regs: Registers {
                    nmi_occurred: false,
                    status: Status { vblank: false, spr_0_hit: false, spr_overflow: false },
                    ..self.regs
                },
                oam: Oam { count: 0, ..self.oam },
                ..self
            }
        } else if 280 <= dot <= 304 && rendering {
            self.with_v(vertical_copy(self.regs.v, self.regs.t) as u16)
        } else if dot == 339 {
            Ppu {
                beam: Beam {
                    dot: if rendering && self.beam.odd {
                        340
                    } else {
                        339
                    },
                    odd: !self.beam.odd,
                    frame: if self.beam.frame == usize::MAX {
                        0
                    } else {
                        (self.beam.frame + 1) as usize
                    },
                    ..self.beam
                },
                ..self
            }
        } else {
            self
        }
    }

    /// The unit after the work of one dot of the pre-render line, which
    /// fetches as a visible line does but composes no pixel and evaluates
    /// no sprites.
    #[verifier::opaque]
    pub open spec fn after_prerender_dot(self, rendering: bool) -> Ppu {
        self.after_prerender_extra(rendering).after_fetch_dot(rendering)
    }

    /// The unit at the start of vertical blank: the flag rises, and with
    /// the interrupt enabled it is latched.
    #[verifier::opaque]
    pub open spec fn after_vblank_start(self) -> Ppu {
        let regs = Registers {
            status: Status { vblank: true, ..self.regs.status },
            ..self.regs
        };
        Ppu {
            regs: if regs.ctrl.nmi {
                regs.with_latch()
            } else {
                regs
            },
            ..self
        }
    }

    /// The unit after a delayed address write took effect, or moved one
    /// dot closer to it.
    #[verifier::opaque]
    pub open spec fn after_scroll_delay(self) -> Ppu {
        if !self.regs.ppuscroll_armed {
            self
        } else if self.regs.ppuscroll_delay == 0 {
            (Ppu {
                regs: Registers {
                    v: self.regs.t,
                    ppuscroll_delay: 0,
                    ppuscroll_armed: false,
                    ..self.regs
                },
                ..self
            }).after_watch_a12(bit_at(self.regs.t.addr as int, 12))
        } else {
            Ppu {
                regs: Registers {
                    ppuscroll_delay: (self.regs.ppuscroll_delay - 1) as u8,
                    ..self.regs
                },
                ..self
            }
        }
    }

    /// The unit after the address watcher saw one dot pass; a counted rise
    /// clocks the interrupt counter of the scanline-counting mapper.
    #[verifier::opaque]
    pub open spec fn after_a12_dot(self) -> Ppu {
        match self.mem.mmc3 {
            None => self,
            Some(m) => Ppu {
                a12: self.a12.after_dot(),
                mem: crate::ppu::memory::VideoMemory {
                    mmc3: Some(
                        crate::ppu::mmc3::Mmc3 {
                            irq: if self.a12.a12_rising {
                                m.irq.after_clock()
                            } else {
                                m.irq
                            },
                            ..m
                        },
                    ),
                    ..self.mem
                },
                ..self
            },
        }
    }

    /// The work of the current dot, by the kind of line: visible lines 0 to
    /// 239, the start of vertical blank on dot 1 of line 241, the
    /// pre-render line 261; dot 0 of every line is idle.
    #[verifier::opaque]
    pub open spec fn after_dot_work(self) -> Ppu {
        let rendering = self.regs.rendering();
        if self.beam.dot == 0 {
            self
        } else if self.beam.scanline <= 239 {
            self.after_visible_dot(rendering)
        } else if self.beam.scanline == 241 && self.beam.dot == 1 {
            self.after_vblank_start()
        } else if self.beam.scanline == 261 {
            self.after_prerender_dot(rendering)
        } else {
            self
        }
    }

    /// The unit one dot later.
    #[verifier::opaque]
    pub open spec fn after_tick(self) -> Ppu {
        let s1 = self.after_dot_work();
        let s2 = Ppu { beam: s1.beam.after_advance(), ..s1 };
        s2.after_scroll_delay().after_a12_dot()
    }

    /// Composes the palette entry of the current dot.
    pub fn compose_pixel(&mut self) -> (pixel: u8)
        requires
            old(self).wf(),
        ensures
            (pixel, *final(self)) == old(self).composing(),
            final(self).wf(),
            final(self).beam == old(self).beam,
            pixel <= 31,
    {
        proof {
            reveal(Ppu::composing);
        }
        let bg_masked: bool = self.beam.sx < 8 && !self.regs.mask.show_background_leftmost_8;
        let spr_masked: bool = self.beam.sx < 8 && !self.regs.mask.show_sprites_leftmost_8;
        let bg_pixel: u8 = self.bg.calculate_bg_pixel(self.regs.x, bg_masked);
        let spr0_present: bool = self.spr.spr0_present;
        let spr_pixel: Option<(usize, u8, bool)> = self.spr.calculate_spr_pixel(spr_masked);
        let show_bg: bool = self.regs.mask.show_background;
        let show_spr: bool = self.regs.mask.show_sprites;
        if show_bg && show_spr {
            match spr_pixel {
                None => bg_pixel,
                Some((id, spr_pixel, priority)) => {
                    if bg_pixel == 0 {
                        spr_pixel
                    } else {
                        if id == 0 && spr0_present && self.beam.sx != 255 {
                            self.regs.status.spr_0_hit = true;
                        }
                        if priority {
                            bg_pixel
                        } else {
                            spr_pixel
                        }
                    }
                },
            }
        } else if show_bg {
            bg_pixel
        } else if show_spr {
            match spr_pixel {
                Some((_, spr_pixel, _)) => spr_pixel,
                None => 0,
            }
        } else {
            0
        }
    }

    /// Shows a palette entry at the current position.
    pub fn show_pixel(&mut self, pixel: u8)
        requires
            old(self).wf(),
            1 <= old(self).beam.dot <= 256,
            pixel <= 31,
        ensures
            *final(self) == old(self).after_show(pixel),
            final(self).wf(),
            final(self).beam == old(self).beam,
    {
        proof {
            reveal(Ppu::after_show);
        }
        let y: usize = self.beam.scanline as usize;
        let x: usize = self.beam.sx as usize;
        if y < 8 || y > 231 {
            return ;
        }
        let palette_idx: u8 = self.mem.pram[pixel as usize] % 64;
        let emphasis_bits: usize = self.regs.mask.emphasis_index();
        self.palette.select_palette(emphasis_bits);
        let palette_idx: u8 = if self.regs.mask.greyscale {
            ((palette_idx / 16) % 4) * 16
        } else {
            palette_idx
        };
        let color: Rgba = self.palette.color(palette_idx);
        self.draw_pixel(Some(color), x, y);
    }

    /// Composes and shows one pixel.
    pub fn render(&mut self)
        requires
            old(self).wf(),
            1 <= old(self).beam.dot <= 256,
        ensures
            *final(self) == old(self).after_render(),
            final(self).wf(),
            final(self).beam == old(self).beam,
    {
        proof {
            reveal(Ppu::after_render);
        }
        let pixel: u8 = self.compose_pixel();
        self.show_pixel(pixel);
    }

    /// Replaces the video address.
    pub fn set_v(&mut self, addr: u16)
        requires
            addr <= 0x7FFF,
        ensures
            *final(self) == old(self).with_v(addr),
            old(self).wf() ==> final(self).wf(),
            old(self).wf_parts() ==> final(self).wf_parts(),
            final(self).beam == old(self).beam,
    {
        self.regs.v.update(addr);
    }

    /// The background fetch of the current dot.
    pub fn bg_fetch(&mut self, rendering: bool)
        requires
            old(self).wf(),
        ensures
            *final(self) == old(self).after_bg_fetch(rendering),
            final(self).wf(),
            final(self).beam == old(self).beam,
    {
        proof {
            reveal(Ppu::after_bg_fetch);
        }
        let dot: u16 = self.beam.dot;
        let in_bg: bool = (1 <= dot && dot <= 256) || (321 <= dot && dot <= 336);
        if dot == 1 || dot == 321 {
            let b: u8 = self.fetch_nt_byte();
            self.bg.nt_latch = b;
        } else if in_bg && dot % 8 == 1 {
            self.bg.reload_shifters();
            let b: u8 = self.fetch_nt_byte();
            self.bg.nt_latch = b;
        } else if in_bg && dot % 8 == 3 {
            let b: u8 = self.fetch_at_byte();
            let v: u16 = self.regs.v.address();
            self.bg.set_attribute(b, v);
        } else if in_bg && dot % 8 == 5 {
            let b: u8 = self.fetch_pt_low(self.bg.nt_latch);
            self.bg.pt_lo_latch = b;
        } else if in_bg && dot % 8 == 7 {
            let b: u8 = self.fetch_pt_high(self.bg.nt_latch);
            self.bg.pt_hi_latch = b;
        } else if rendering && dot % 8 == 0 && ((1 <= dot && dot <= 255) || (328 <= dot && dot
            <= 336)) {
            let a: u16 = self.regs.v.inc_horiz();
            self.set_v(a);
        } else if rendering && dot == 256 {
            let a: u16 = self.regs.v.inc_horiz();
            self.set_v(a);
            let a: u16 = self.regs.v.inc_vert();
            self.set_v(a);
        } else if dot == 337 {
            self.bg.reload_shifters();
            self.fetch_nt_byte();
        } else if dot == 339 {
            self.fetch_nt_byte();
        }
    }

    /// Fetches a pattern byte of the current sprite into shifter `plane`.
    pub fn sprite_pattern_fetch(&mut self, plane: usize)
        requires
            old(self).wf(),
            plane < 2,
        ensures
            *final(self) == old(self).after_sprite_pattern(plane as int),
            final(self).wf(),
            final(self).beam == old(self).beam,
    {
        proof {
            reveal(Ppu::after_sprite_pattern);
        }
        match self.spr.cur_spr {
            Some(s) => {
                let spr_height: u16 = (self.regs.ctrl.size / 8) as u16;
                let spr_off: u16 = SpriteUnit::row(s, self.beam.scanline, spr_height);
                let b: u8 = if plane == 0 {
                    self.spr_fetch_pt_low(s.tile_idx, spr_off)
                } else {
                    self.spr_fetch_pt_high(s.tile_idx, spr_off)
                };
                self.spr.store(plane, b);
            },
            None => {
                if self.spr.spr_idx < 8 {
                    let b: u8 = if plane == 0 {
                        self.spr_fetch_pt_low(0xFF, 0)
                    } else {
                        self.spr_fetch_pt_high(0xFF, 0)
                    };
                    self.spr.store(plane, b);
                }
            },
        }
    }

    /// Starts the sprite fetches of a line.
    pub fn sprite_start(&mut self, rendering: bool)
        requires
            old(self).wf(),
        ensures
            *final(self) == old(self).after_sprite_start(rendering),
            final(self).wf(),
            final(self).beam == old(self).beam,
    {
        proof {
            reveal(Ppu::after_sprite_start);
        }
        self.bg.reload_shifters();
        if rendering {
            let addr: u16 = self.regs.t.address();
            let horiz_bits: u16 = bits_abs16(addr, 10, 10) + bits_abs16(addr, 0, 4);
            let addr: u16 = self.regs.v.address();
            let addr: u16 = bits_abs16(addr, 11, 14) + bits_abs16(addr, 5, 9) + horiz_bits;
            self.set_v(addr);
        }
        self.spr.start_line();
    }

    /// The sprite fetch of the current dot.
    pub fn sprite_fetch(&mut self, rendering: bool)
        requires
            old(self).wf(),
        ensures
            *final(self) == old(self).after_sprite_fetch(rendering),
            final(self).wf(),
            final(self).beam == old(self).beam,
    {
        proof {
            reveal(Ppu::after_sprite_fetch);
        }
        let phase: u16 = self.beam.dot % 8;
        if phase == 1 {
            if self.beam.dot == 257 {
                self.sprite_start(rendering);
            }
            self.fetch_nt_byte();
            self.spr.select(&self.oam);
        } else if phase == 3 {
            self.fetch_nt_byte();
            self.spr.latch();
        } else if phase == 5 {
            self.sprite_pattern_fetch(0);
        } else if phase == 7 {
            self.sprite_pattern_fetch(1);
            self.spr.advance();
        }
    }

    /// Evaluates the sprites of the next line.
    pub fn evaluate_sprites(&mut self)
        requires
            old(self).wf_parts(),
            old(self).beam.scanline <= 261,
        ensures
            *final(self) == old(self).after_evaluation(),
            final(self).wf_parts(),
            final(self).beam == old(self).beam,
    {
        proof {
            reveal(Ppu::after_evaluation);
        }
        self.oam.calculate_sprites_on_scanline(
            self.beam.scanline as usize + 1,
            self.regs.ctrl.size,
        );
        if self.oam.overflow {
            self.regs.status.spr_overflow = true;
        }
        self.spr.spr_idx = 0;
    }

    /// The pixel of the current dot.
    pub fn pixel_step(&mut self, rendering: bool)
        requires
            old(self).wf(),
            1 <= old(self).beam.dot <= 256,
        ensures
            *final(self) == old(self).after_pixel_step(rendering),
            final(self).wf_parts(),
            final(self).beam.wf_mid(),
            final(self).beam.dot == old(self).beam.dot,
            final(self).beam.scanline == old(self).beam.scanline,
    {
        proof {
            reveal(Ppu::after_pixel_step);
        }
        self.spr.step_counters();
        self.render();
        self.beam.sx = self.beam.sx + 1;
        if rendering && self.beam.dot == 65 {
            self.evaluate_sprites();
        }
    }

    /// The work of one dot of a visible line.
    pub fn tick_visible_scanline(&mut self, rendering: bool)
        requires
            old(self).wf(),
            old(self).beam.dot >= 1,
        ensures
            *final(self) == old(self).after_visible_dot(rendering),
            final(self).wf_parts(),
            final(self).beam.wf_mid(),
            final(self).beam.dot == old(self).beam.dot,
            final(self).beam.scanline == old(self).beam.scanline,
    {
        proof {
            reveal(Ppu::after_visible_dot);
        }
        let dot: u16 = self.beam.dot;
        if 257 <= dot && dot <= 320 {
            self.sprite_fetch(rendering);
        } else {
            self.bg_fetch(rendering);
        }
        if dot <= 256 {
            self.pixel_step(rendering);
        }
        if dot <= 336 {
            self.bg.shift();
        }
    }

    /// The fetches of one dot of a line on which no pixel is composed.
    pub fn fetch_dot(&mut self, rendering: bool)
        requires
            old(self).wf(),
            old(self).beam.dot >= 1,
        ensures
            *final(self) == old(self).after_fetch_dot(rendering),
            final(self).wf(),
            final(self).beam == old(self).beam,
    {
        proof {
            reveal(Ppu::after_fetch_dot);
        }
        let dot: u16 = self.beam.dot;
        if 257 <= dot && dot <= 320 {
            self.sprite_fetch(rendering);
        } else {
            self.bg_fetch(rendering);
        }
        if dot <= 336 {
            self.bg.shift();
        }
    }

    /// What the pre-render line does before its fetches.
    pub fn prerender_extra(&mut self, rendering: bool)
        requires
            old(self).wf(),
            old(self).beam.dot >= 1,
        ensures
            *final(self) == old(self).after_prerender_extra(rendering),
            final(self).wf(),
            final(self).beam.dot >= 1,
            final(self).beam.scanline == old(self).beam.scanline,
    {
        proof {
            reveal(Ppu::after_prerender_extra);
        }
        let dot: u16 = self.beam.dot;
        if dot == 1 {
            self.regs.nmi_occurred = false;
            self.regs.status.vblank = false;
            self.regs.status.spr_0_hit = false;
            self.regs.status.spr_overflow = false;
            self.oam.count = 0;
        } else if 280 <= dot && dot <= 304 && rendering {
            let addr: u16 = self.regs.t.address();
            let vert_bits: u16 = bits_abs16(addr, 11, 14) + bits_abs16(addr, 5, 9);
            let addr: u16 = self.regs.v.address();
            let addr: u16 = bits_abs16(addr, 10, 10) + bits_abs16(addr, 0, 4) + vert_bits;
            self.set_v(addr);
        } else if dot == 339 {
            if rendering && self.beam.odd {
                self.beam.dot = 340;
            }
            self.beam.odd = !self.beam.odd;
            self.beam.frame = if self.beam.frame == usize::MAX {
                0
            } else {
                self.beam.frame + 1
            };
        }
    }

    /// The work of one dot of the pre-render line.
    pub fn tick_prerender_scanline(&mut self, rendering: bool)
        requires
            old(self).wf(),
            old(self).beam.dot >= 1,
        ensures
            *final(self) == old(self).after_prerender_dot(rendering),
            final(self).wf_parts(),
            final(self).beam.wf_mid(),
            final(self).beam.dot >= 1,
    {
        proof {
            reveal(Ppu::after_prerender_dot);
        }
        self.prerender_extra(rendering);
        self.fetch_dot(rendering);
    }

    /// Raises the vertical-blank flag.
    pub fn vblank_start(&mut self)
        ensures
            *final(self) == old(self).after_vblank_start(),
            old(self).wf() ==> final(self).wf(),
    {
        proof {
            reveal(Ppu::after_vblank_start);
        }
        self.regs.status.vblank = true;
        if self.regs.ctrl.nmi {
            self.regs.latch_interrupt();
        }
    }

    /// Lets a delayed address write take effect or come one dot closer.
    pub fn scroll_delay(&mut self)
        ensures
            *final(self) == old(self).after_scroll_delay(),
            old(self).wf() ==> final(self).wf(),
    {
        proof {
            reveal(Ppu::after_scroll_delay);
        }
        if self.regs.ppuscroll_armed {
            if self.regs.ppuscroll_delay == 0 {
                self.regs.v = self.regs.t;
                self.watch_a12(bit16(self.regs.v.address(), 12));
                self.regs.ppuscroll_delay = 0;
                self.regs.ppuscroll_armed = false;
            } else {
                self.regs.ppuscroll_delay = self.regs.ppuscroll_delay - 1;
            }
        }
    }

    /// Lets the address watcher see one dot pass.
    pub fn a12_dot(&mut self)
        ensures
            *final(self) == old(self).after_a12_dot(),
            old(self).wf() ==> final(self).wf(),
    {
        proof {
            reveal(Ppu::after_a12_dot);
        }
        match self.mem.mmc3 {
            Some(m) => {
                let rose: bool = self.a12.dot();
                if rose {
                    let mut m2 = m;
                    m2.irq.clock();
                    self.mem.mmc3 = Some(m2);
                }
            },
            None => {},
        }
    }

    /// The work of the current dot.
    pub fn dot_work(&mut self)
        requires
            old(self).wf(),
        ensures
            *final(self) == old(self).after_dot_work(),
            final(self).wf_parts(),
            final(self).beam.wf_mid(),
    {
        proof {
            reveal(Ppu::after_dot_work);
        }
        let rendering: bool = self.regs.mask.show_background || self.regs.mask.show_sprites;
        if self.beam.dot != 0 {
            if self.beam.scanline <= 239 {
                self.tick_visible_scanline(rendering);
            } else if self.beam.scanline == 241 && self.beam.dot == 1 {
                self.vblank_start();
            } else if self.beam.scanline == 261 {
                self.tick_prerender_scanline(rendering);
            }
        }
    }

    /// Advances the unit by one dot.
    pub fn tick(&mut self)
        requires
            old(self).wf(),
        ensures
            *final(self) == old(self).after_tick(),
            final(self).wf(),
    {
        proof {
            reveal(Ppu::after_tick);
        }
        self.dot_work();
        self.beam.advance();
        self.scroll_delay();
        self.a12_dot();
    }
}

} // verus!
