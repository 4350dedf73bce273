//! The watcher of address line 12 and the background half of the pixel
//! pipeline: latches and shifters.

use vstd::prelude::*;
use crate::util::bit::{bit16, bit_at, field_in_place, pow2, power_of_two};
use crate::util::shift_reg::ShiftRegister;
use crate::util::{bool_bit, flag_bit};

verus! {

/// The history of address line 12 of the picture bus.
#[derive(Clone, Copy, Debug)]
pub struct A12Watch {
    pub a12: bool,
    /// Dots the line still has to stay low before a rise counts.
    pub a12_filter: u8,
    pub a12_rising: bool,
    pub old_a12: bool,
}

impl A12Watch {
    /// The history after the line was seen at `level`.  A rise counts when
    /// the filter has run out.  Nothing is recorded unless `watching`.
    pub open spec fn after_watch(self, level: bool, watching: bool) -> A12Watch {
        if !watching {
            self
        } else {
            A12Watch {
                old_a12: self.a12,
                a12: level,
                a12_rising: self.a12_rising || (!self.a12 && level && self.a12_filter == 0),
                ..self
            }
        }
    }

    /// The history after one dot: while the line is low the filter runs
    /// down, while it is high the filter is set to 9; a counted rise is consumed.
    pub open spec fn after_dot(self) -> A12Watch {
        A12Watch {
            a12_filter: if self.a12 {
                9
            } else if self.a12_filter >= 1 {
                (self.a12_filter - 1) as u8
            } else {
                0
            },
            a12_rising: false,
            ..self
        }
    }

    /// The history at power-up: line low, filter at 9.
    pub fn new() -> (w: A12Watch)
        ensures
            w == (A12Watch { a12: false, a12_filter: 9, a12_rising: false, old_a12: false }),
    {
        A12Watch { a12: false, a12_filter: 9, a12_rising: false, old_a12: false }
    }

    /// Shows the level of the line to the watcher.
    pub fn watch(&mut self, level: bool, watching: bool)
        ensures
            *final(self) == old(self).after_watch(level, watching),
    {
        if !watching {
            return ;
        }
        self.old_a12 = self.a12;
        self.a12 = level;
        if !self.old_a12 && self.a12 && self.a12_filter == 0 {
            self.a12_rising = true;
        }
    }

    /// One dot passes; tells whether a counted rise was pending.
    pub fn dot(&mut self) -> (rose: bool)
        ensures
            *final(self) == old(self).after_dot(),
            rose == old(self).a12_rising,
    {
        if !self.a12 {
            if self.a12_filter >= 1 {
                self.a12_filter = self.a12_filter - 1;
            }
        } else {
            self.a12_filter = 9;
        }
        let rose: bool = self.a12_rising;
        self.a12_rising = false;
        rose
    }
}

/// With the filter run out, a rise of the line is counted; with the filter
/// still running, or without a rise, nothing is counted.
pub proof fn lemma_rise_needs_quiet_line(w: A12Watch, level: bool)
    requires
        !w.a12_rising,
    ensures
        w.after_watch(level, true).a12_rising <==> (!w.a12 && level && w.a12_filter == 0),
{
}

/// The filter after `n` dots on which the line is not touched.
pub open spec fn after_dots(w: A12Watch, n: nat) -> A12Watch
    decreases n,
{
    if n == 0 {
        w
    } else {
        after_dots(w, (n - 1) as nat).after_dot()
    }
}

/// After the line went low, the filter has run out once 9 dots have passed,
/// and not before.
pub proof fn lemma_filter_runs_out_after_nine(w: A12Watch, n: nat)
    requires
        !w.a12,
        w.a12_filter == 9,
    ensures
        after_dots(w, n).a12_filter == if n <= 9 { 9 - n } else { 0 },
        !after_dots(w, n).a12,
    decreases n,
{
    if n > 0 {
        lemma_filter_runs_out_after_nine(w, (n - 1) as nat);
    }
}

/// The background latches and shifters.
#[derive(Clone, Copy, Debug)]
pub struct Background {
    pub at_hi_latch: u8,
    pub at_latch: u8,
    pub at_lo_latch: u8,
    pub at_shifters: [ShiftRegister<u16, 16>; 2],
    pub nt_latch: u8,
    pub pt_hi_latch: u8,
    pub pt_lo_latch: u8,
    pub pt_shifters: [ShiftRegister<u16, 16>; 2],
}

impl Background {
    /// The attribute latches hold one bit each.
    pub open spec fn wf(self) -> bool {
        self.at_lo_latch <= 1 && self.at_hi_latch <= 1
    }

    /// The pipeline after the latches were moved into the upper halves of
    /// the four shifters; an attribute bit fills all eight positions.
    pub open spec fn after_reload(self) -> Background {
        Background {
            pt_shifters: [
                self.pt_shifters[0].after_push_n(self.pt_lo_latch, 8),
                self.pt_shifters[1].after_push_n(self.pt_hi_latch, 8),
            ],
            at_shifters: [
                self.at_shifters[0].after_push_n((0xFF * self.at_lo_latch) as u8, 8),
                self.at_shifters[1].after_push_n((0xFF * self.at_hi_latch) as u8, 8),
            ],
            ..self
        }
    }

    /// The pipeline after all four shifters moved on by one pixel.
    pub open spec fn after_shift(self) -> Background {
        Background {
            pt_shifters: [self.pt_shifters[0].after_pop(), self.pt_shifters[1].after_pop()],
            at_shifters: [self.at_shifters[0].after_pop(), self.at_shifters[1].after_pop()],
            ..self
        }
    }

    /// The pipeline after the attribute byte `byte` was fetched for the tile
    /// at video address `v`: the two bits of the tile's quadrant, chosen by
    /// bit 6 and bit 1 of the address, go to the attribute latches.
    pub open spec fn after_attribute(self, byte: u8, v: u16) -> Background {
        let shift = bool_bit(bit_at(v as int, 6)) * 4 + bool_bit(bit_at(v as int, 1)) * 2;
        let bits = byte as int / pow2(shift);
        Background {
            at_latch: byte,
            at_lo_latch: (bits % 2) as u8,
            at_hi_latch: ((bits / 2) % 2) as u8,
            ..self
        }
    }

    /// Bit `x` of the low nine bits of a shifter.
    pub open spec fn tap(s: ShiftRegister<u16, 16>, x: u8) -> int {
        bool_bit(bit_at(field_in_place(s.data as int, 0, 8, 16), x as int)) as int
    }

    /// The background pixel at fine scroll `x`: 0 when transparent or
    /// masked, else attribute bits times 4 plus pattern bits.
    pub open spec fn pixel(self, x: u8, masked: bool) -> u8 {
        if masked {
            0
        } else {
            let idx = Self::tap(self.pt_shifters[1], x) * 2 + Self::tap(self.pt_shifters[0], x);
            let attrib = Self::tap(self.at_shifters[1], x) * 2 + Self::tap(self.at_shifters[0], x);
            if idx == 0 {
                0
            } else {
                (attrib * 4 + idx) as u8
            }
        }
    }

    /// Empty latches and shifters.
    pub fn new() -> (b: Background)
        ensures
            b.wf(),
            b.at_hi_latch == 0 && b.at_latch == 0 && b.at_lo_latch == 0 && b.nt_latch == 0
                && b.pt_hi_latch == 0 && b.pt_lo_latch == 0,
            forall|i: int| 0 <= i < 2 ==> b.at_shifters[i].data == 0 && b.pt_shifters[i].data == 0,
    {
        Background {
            at_hi_latch: 0,
            at_latch: 0,
            at_lo_latch: 0,
            at_shifters: [ShiftRegister::<u16, 16>::new(); 2],
            nt_latch: 0,
            pt_hi_latch: 0,
            pt_lo_latch: 0,
            pt_shifters: [ShiftRegister::<u16, 16>::new(); 2],
        }
    }

    /// Moves the pattern and attribute latches into the shifters.
    pub fn reload_shifters(&mut self)
        requires
            old(self).wf(),
        ensures
            *final(self) == old(self).after_reload(),
            final(self).wf(),
    {
        let mut lo: ShiftRegister<u16, 16> = self.pt_shifters[0];
        let mut hi: ShiftRegister<u16, 16> = self.pt_shifters[1];
        lo.push_n(self.pt_lo_latch, 8);
        hi.push_n(self.pt_hi_latch, 8);
        self.pt_shifters = [lo, hi];
        let at_low: u8 = self.at_lo_latch;
        let at_high: u8 = self.at_hi_latch;
        let mut alo: ShiftRegister<u16, 16> = self.at_shifters[0];
        let mut ahi: ShiftRegister<u16, 16> = self.at_shifters[1];
        alo.push_n(0xFF * at_low, 8);
        ahi.push_n(0xFF * at_high, 8);
        self.at_shifters = [alo, ahi];
    }

    /// Moves all four shifters on by one pixel.
    pub fn shift(&mut self)
        ensures
            *final(self) == old(self).after_shift(),
            old(self).wf() ==> final(self).wf(),
    {
        let mut lo: ShiftRegister<u16, 16> = self.pt_shifters[0];
        let mut hi: ShiftRegister<u16, 16> = self.pt_shifters[1];
        lo.pop();
        hi.pop();
        self.pt_shifters = [lo, hi];
        let mut alo: ShiftRegister<u16, 16> = self.at_shifters[0];
        let mut ahi: ShiftRegister<u16, 16> = self.at_shifters[1];
        alo.pop();
        ahi.pop();
        self.at_shifters = [alo, ahi];
    }

    /// Takes the attribute byte fetched for the tile at video address `v`.
    pub fn set_attribute(&mut self, byte: u8, v: u16)
        ensures
            *final(self) == old(self).after_attribute(byte, v),
            final(self).wf(),
    {
        self.at_latch = byte;
        let a6: u8 = flag_bit(bit16(v, 6));
        let a1: u8 = flag_bit(bit16(v, 1));
        let at_bits: u32 = (self.at_latch as u32) / power_of_two((a6 * 4 + a1 * 2) as usize);
        self.at_lo_latch = (at_bits % 2) as u8;
        self.at_hi_latch = ((at_bits / 2) % 2) as u8;
    }

    /// The background pixel at fine scroll `x`.
    pub fn calculate_bg_pixel(&self, x: u8, masked: bool) -> (r: u8)
        requires
            x <= 7,
        ensures
            r == self.pixel(x, masked),
            r <= 15,
    {
        if masked {
            return 0;
        }
        let x: usize = x as usize;
        let palette_low: u8 = flag_bit(bit16(self.pt_shifters[0].peek_n(8), x));
        let palette_high: u8 = flag_bit(bit16(self.pt_shifters[1].peek_n(8), x));
        let palette_idx: u8 = palette_high * 2 + palette_low;
        let attrib_low: u8 = flag_bit(bit16(self.at_shifters[0].peek_n(8), x));
        let attrib_high: u8 = flag_bit(bit16(self.at_shifters[1].peek_n(8), x));
        let attrib: u8 = attrib_high * 2 + attrib_low;
        if palette_idx == 0 {
            0
        } else {
            attrib * 4 + palette_idx
        }
    }
}

} // verus!
