//! The sprite half of the pixel pipeline: eight slots with pattern
//! shifters, attribute latches and X counters.

use vstd::prelude::*;
use crate::ppu::oam::{Attributes, Oam, Sprite};
use crate::ppu::pipeline_bits::{reverse_bits, reversed};
use crate::util::shift_reg::ShiftRegister;
use crate::util::{sub16, wrap_sub16};

verus! {

/// The eight sprite slots of the line being drawn, and the sprite being
/// fetched for the next line.
#[derive(Clone, Copy, Debug)]
pub struct SpriteUnit {
    pub cur_spr: Option<Sprite>,
    pub spr0_present: bool,
    pub spr_active: [bool; 8],
    pub spr_counters: [u16; 8],
    /// The slot being fetched, or 8 when all are done.
    pub spr_idx: usize,
    pub spr_latches: [Attributes; 8],
    pub spr_pt_shifters: [[ShiftRegister<u8, 8>; 2]; 8],
    pub spr_shift_count: [u8; 8],
}

impl SpriteUnit {
    /// The slot index, the palette numbers and the shift counts are in range.
    pub open spec fn wf(self) -> bool {
        &&& self.spr_idx <= 8
        &&& (self.cur_spr matches Some(s) ==> s.attrib.wf())
        &&& forall|i: int| 0 <= i < 8 ==> (#[trigger] self.spr_latches[i]).wf()
        &&& forall|i: int| 0 <= i < 8 ==> #[trigger] self.spr_shift_count[i] <= 7
    }

    /// The two pattern bits the sprite in slot `i` shows next.
    pub open spec fn sprite_bits(self, i: int) -> int {
        (self.spr_pt_shifters[i][1].data % 2) * 2 + self.spr_pt_shifters[i][0].data % 2
    }

    /// The first slot at or after `from` whose sprite is active and opaque.
    pub open spec fn opaque_slot(self, from: int) -> Option<int>
        decreases 8 - from,
    {
        if from < 0 || from >= 8 {
            None
        } else if self.spr_active[from] && self.sprite_bits(from) != 0 {
            Some(from)
        } else {
            self.opaque_slot(from + 1)
        }
    }

    /// The sprite pixel: slot, palette entry 16 to 31, and whether the
    /// sprite lies behind the background.  None when masked.
    pub open spec fn pixel(self, masked: bool) -> Option<(usize, u8, bool)> {
        if masked {
            None
        } else {
            match self.opaque_slot(0) {
                Some(i) => Some(
                    (
                        i as usize,
                        (16 + (self.spr_latches[i].palette % 4) * 4 + self.sprite_bits(i)) as u8,
                        self.spr_latches[i].priority,
                    ),
                ),
                None => None,
            }
        }
    }

    /// The unit after the sprite in slot `i` moved on by one pixel, if it
    /// is active; after eight pixels it is done.
    pub open spec fn after_shift_slot(self, i: int) -> SpriteUnit {
        if !self.spr_active[i] {
            self
        } else {
            let done = self.spr_shift_count[i] + 1 == 8;
            SpriteUnit {
                spr_pt_shifters: vstd::array::spec_array_update(
                    self.spr_pt_shifters,
                    i,
                    [self.spr_pt_shifters[i][0].after_pop(), self.spr_pt_shifters[i][1].after_pop()],
                ),
                spr_shift_count: vstd::array::spec_array_update(
                    self.spr_shift_count,
                    i,
                    if done {
                        0u8
                    } else {
                        (self.spr_shift_count[i] + 1) as u8
                    },
                ),
                spr_active: vstd::array::spec_array_update(self.spr_active, i, !done),
                ..self
            }
        }
    }

    /// The unit after slots 0 to `n - 1` moved on by one pixel.
    pub open spec fn after_shift_slots(self, n: int) -> SpriteUnit
        decreases n,
    {
        if n <= 0 {
            self
        } else {
            self.after_shift_slots(n - 1).after_shift_slot(n - 1)
        }
    }

    /// The unit after the sprite pixel was taken: when masked nothing
    /// moves, else every active sprite moves on.
    pub open spec fn after_pixel(self, masked: bool) -> SpriteUnit {
        if masked {
            self
        } else {
            self.after_shift_slots(8)
        }
    }

    /// The unit after the X counter of slot `i` stepped: from 1 the sprite
    /// becomes active, from 0 nothing happens.
    pub open spec fn after_count_slot(self, i: int) -> SpriteUnit {
        let c = self.spr_counters[i];
        if c == 0 {
            self
        } else if c == 1 {
            SpriteUnit {
                spr_active: vstd::array::spec_array_update(self.spr_active, i, true),
                spr_shift_count: vstd::array::spec_array_update(self.spr_shift_count, i, 0u8),
                spr_counters: vstd::array::spec_array_update(self.spr_counters, i, 0u16),
                ..self
            }
        } else {
            SpriteUnit {
                spr_counters: vstd::array::spec_array_update(
                    self.spr_counters,
                    i,
                    (c - 1) as u16,
                ),
                ..self
            }
        }
    }

    /// The unit after the X counters of slots 0 to `n - 1` stepped.
    pub open spec fn after_count_slots(self, n: int) -> SpriteUnit
        decreases n,
    {
        if n <= 0 {
            self
        } else {
            self.after_count_slots(n - 1).after_count_slot(n - 1)
        }
    }

    /// The unit at the start of the sprite fetches of a line: no sprite
    /// active, sprite zero not seen.
    pub open spec fn after_start_line(self) -> SpriteUnit {
        SpriteUnit {
            spr_active: vstd::array::spec_array_fill_for_copy_type::<bool, 8>(false),
            spr0_present: false,
            ..self
        }
    }

    /// The unit after the sprite for the current slot was taken from the
    /// list in `oam`; the sprite at address 0 of sprite memory is sprite zero.
    pub open spec fn after_select(self, oam: Oam) -> SpriteUnit {
        if self.spr_idx < oam.count && self.spr_idx < 8 {
            SpriteUnit {
                cur_spr: Some(oam.sprites[self.spr_idx as int].1),
                spr0_present: self.spr0_present || oam.sprites[self.spr_idx as int].0 == 0,
                ..self
            }
        } else {
            SpriteUnit { cur_spr: None, ..self }
        }
    }

    /// The unit after attributes and X position of the current sprite were
    /// latched into the current slot; an empty slot gets blank attributes.
    pub open spec fn after_latch(self) -> SpriteUnit {
        if self.spr_idx >= 8 {
            self
        } else {
            match self.cur_spr {
                Some(s) => SpriteUnit {
                    spr_latches: vstd::array::spec_array_update(
                        self.spr_latches,
                        self.spr_idx as int,
                        s.attrib,
                    ),
                    spr_counters: vstd::array::spec_array_update(
                        self.spr_counters,
                        self.spr_idx as int,
                        (s.x + 1) as u16,
                    ),
                    ..self
                },
                None => SpriteUnit {
                    spr_latches: vstd::array::spec_array_update(
                        self.spr_latches,
                        self.spr_idx as int,
                        Attributes { palette: 0, priority: false, flip_horiz: false, flip_vert: false },
                    ),
                    spr_counters: vstd::array::spec_array_update(
                        self.spr_counters,
                        self.spr_idx as int,
                        0u16,
                    ),
                    ..self
                },
            }
        }
    }

    /// The row of sprite `s` that shows on `scanline`, counted from the
    /// bottom when the sprite is flipped; modulo 65536.
    pub open spec fn row_of(s: Sprite, scanline: u16, height: u16) -> u16 {
        let down = wrap_sub16(scanline, s.y as u16);
        if s.attrib.flip_vert {
            wrap_sub16(wrap_sub16(height, 1), down)
        } else {
            down
        }
    }

    /// The pattern byte as it enters the shifter: mirrored for a sprite
    /// flipped left to right.
    pub open spec fn oriented(s: Sprite, byte: u8) -> u8 {
        if s.attrib.flip_horiz {
            reversed(byte)
        } else {
            byte
        }
    }

    /// The unit after the fetched pattern byte entered shifter `plane` of
    /// the current slot; an empty slot gets an empty shifter.
    pub open spec fn after_store(self, plane: int, byte: u8) -> SpriteUnit {
        if self.spr_idx >= 8 {
            self
        } else {
            let pair = self.spr_pt_shifters[self.spr_idx as int];
            let filled = match self.cur_spr {
                Some(s) => pair[plane].after_push_n(Self::oriented(s, byte), 8),
                None => ShiftRegister::<u8, 8> { data: 0 },
            };
            SpriteUnit {
                spr_pt_shifters: vstd::array::spec_array_update(
                    self.spr_pt_shifters,
                    self.spr_idx as int,
                    if plane == 0 {
                        [filled, pair[1]]
                    } else {
                        [pair[0], filled]
                    },
                ),
                ..self
            }
        }
    }

    /// The unit after the fetch moved on to the next slot.
    pub open spec fn after_advance(self) -> SpriteUnit {
        SpriteUnit {
            spr_idx: if self.spr_idx < 8 {
                (self.spr_idx + 1) as usize
            } else {
                self.spr_idx
            },
            ..self
        }
    }

    /// Empty slots; sprite zero counts as present until the first fetch.
    pub fn new() -> (u: SpriteUnit)
        ensures
            u.wf(),
            u.cur_spr is None,
            u.spr0_present,
            u.spr_idx == 0,
            forall|i: int|
                0 <= i < 8 ==> !u.spr_active[i] && u.spr_counters[i] == 0 && u.spr_shift_count[i]
                    == 0 && u.spr_latches[i] == (Attributes {
                    palette: 0,
                    priority: false,
                    flip_horiz: false,
                    flip_vert: false,
                }) && u.spr_pt_shifters[i][0].data == 0 && u.spr_pt_shifters[i][1].data == 0,
    {
        SpriteUnit {
            cur_spr: None,
            spr0_present: true,
            spr_active: [false; 8],
            spr_counters: [0; 8],
            spr_idx: 0,
            spr_latches: [Attributes::new(); 8],
            spr_pt_shifters: [[ShiftRegister::<u8, 8>::new(); 2]; 8],
            spr_shift_count: [0; 8],
        }
    }

    /// Finds the first active, opaque sprite at or after slot `from`.
    fn find_opaque(&self, from: usize) -> (r: Option<usize>)
        requires
            from <= 8,
        ensures
            match self.opaque_slot(from as int) {
                Some(i) => r == Some(i as usize) && from <= i < 8,
                None => r is None,
            },
    {
        let mut i: usize = from;
        while i < 8
            invariant
                from <= i <= 8,
                self.opaque_slot(from as int) == self.opaque_slot(i as int),
            decreases 8 - i,
        {
            if self.spr_active[i] {
                let pair: &[ShiftRegister<u8, 8>; 2] = &self.spr_pt_shifters[i];
                if pair[1].peek() * 2 + pair[0].peek() != 0 {
                    return Some(i);
                }
            }
            i = i + 1;
        }
        None
    }

    /// Moves the sprite in slot `i` on by one pixel, if it is active.
    fn shift_slot(&mut self, i: usize)
        requires
            old(self).wf(),
            i < 8,
        ensures
            *final(self) == old(self).after_shift_slot(i as int),
            final(self).wf(),
    {
        if !self.spr_active[i] {
            return ;
        }
        let pair: [ShiftRegister<u8, 8>; 2] = self.spr_pt_shifters[i];
        let mut lo: ShiftRegister<u8, 8> = pair[0];
        let mut hi: ShiftRegister<u8, 8> = pair[1];
        lo.pop();
        hi.pop();
        self.spr_pt_shifters[i] = [lo, hi];
        let count: u8 = self.spr_shift_count[i] + 1;
        if count == 8 {
            self.spr_shift_count[i] = 0;
            self.spr_active[i] = false;
        } else {
            self.spr_shift_count[i] = count;
            self.spr_active[i] = true;
        }
    }

    /// Takes the sprite pixel and moves the active sprites on.
    pub fn calculate_spr_pixel(&mut self, masked: bool) -> (r: Option<(usize, u8, bool)>)
        requires
            old(self).wf(),
        ensures
            r == old(self).pixel(masked),
            *final(self) == old(self).after_pixel(masked),
            final(self).wf(),
            r matches Some(p) ==> p.0 < 8 && 16 <= p.1 <= 31,
    {
        if masked {
            return None;
        }
        let pixel: Option<(usize, u8, bool)> = match self.find_opaque(0) {
            Some(idx) => {
                let pair: &[ShiftRegister<u8, 8>; 2] = &self.spr_pt_shifters[idx];
                let palette_idx: u8 = pair[1].peek() * 2 + pair[0].peek();
                let attrib: u8 = self.spr_latches[idx].palette;
                let priority: bool = self.spr_latches[idx].priority;
                Some((idx, 16 + (attrib % 4) * 4 + palette_idx, priority))
            },
            None => None,
        };
        let mut i: usize = 0;
        while i < 8
            invariant
                i <= 8,
                self.wf(),
                *self == old(self).after_shift_slots(i as int),
            decreases 8 - i,
        {
            self.shift_slot(i);
            i = i + 1;
        }
        pixel
    }

    /// Steps the X counters; a sprite whose counter leaves 1 becomes active.
    pub fn step_counters(&mut self)
        requires
            old(self).wf(),
        ensures
            *final(self) == old(self).after_count_slots(8),
            final(self).wf(),
    {
        let mut i: usize = 0;
        while i < 8
            invariant
                i <= 8,
                self.wf(),
                *self == old(self).after_count_slots(i as int),
            decreases 8 - i,
        {
            let c: u16 = self.spr_counters[i];
            if c == 1 {
                self.spr_active[i] = true;
                self.spr_shift_count[i] = 0;
                self.spr_counters[i] = 0;
            } else if c >= 2 {
                self.spr_counters[i] = c - 1;
            }
            i = i + 1;
        }
    }

    /// Starts the sprite fetches of a line.
    pub fn start_line(&mut self)
        ensures
            *final(self) == old(self).after_start_line(),
            old(self).wf() ==> final(self).wf(),
    {
        self.spr_active = [false; 8];
        self.spr0_present = false;
    }

    /// Takes the sprite for the current slot from the list in `oam`.
    pub fn select(&mut self, oam: &Oam)
        requires
            old(self).wf(),
            oam.wf(),
        ensures
            *final(self) == old(self).after_select(*oam),
            final(self).wf(),
    {
        if self.spr_idx < oam.count && self.spr_idx < 8 {
            let entry: (usize, Sprite, usize) = oam.sprites[self.spr_idx];
            if entry.0 == 0 {
                self.spr0_present = true;
            }
            self.cur_spr = Some(entry.1);
        } else {
            self.cur_spr = None;
        }
    }

    /// Latches attributes and X position of the current sprite.
    pub fn latch(&mut self)
        requires
            old(self).wf(),
        ensures
            *final(self) == old(self).after_latch(),
            final(self).wf(),
    {
        if self.spr_idx >= 8 {
            return ;
        }
        match self.cur_spr {
            Some(s) => {
                self.spr_latches[self.spr_idx] = s.attrib;
                self.spr_counters[self.spr_idx] = s.x as u16 + 1;
            },
            None => {
                self.spr_latches[self.spr_idx] = Attributes::new();
                self.spr_counters[self.spr_idx] = 0;
            },
        }
    }

    /// The row of sprite `s` that shows on `scanline`.
    pub fn row(s: Sprite, scanline: u16, height: u16) -> (r: u16)
        ensures
            r == Self::row_of(s, scanline, height),
    {
        let down: u16 = sub16(scanline, s.y as u16);
        if s.attrib.flip_vert {
            sub16(sub16(height, 1), down)
        } else {
            down
        }
    }

    /// Puts a fetched pattern byte into shifter `plane` of the current slot.
    pub fn store(&mut self, plane: usize, byte: u8)
        requires
            old(self).wf(),
            plane < 2,
        ensures
            *final(self) == old(self).after_store(plane as int, byte),
            final(self).wf(),
    {
        if self.spr_idx >= 8 {
            return ;
        }
        let pair: [ShiftRegister<u8, 8>; 2] = self.spr_pt_shifters[self.spr_idx];
        let mut filled: ShiftRegister<u8, 8> = pair[plane];
        match self.cur_spr {
            Some(s) => {
                let byte: u8 = if s.attrib.flip_horiz {
                    reverse_bits(byte)
                } else {
                    byte
                };
                filled.push_n(byte, 8);
            },
            None => {
                filled.load(0);
            },
        }
        self.spr_pt_shifters[self.spr_idx] = if plane == 0 {
            [filled, pair[1]]
        } else {
            [pair[0], filled]
        };
    }

    /// Moves the fetch on to the next slot.
    pub fn advance(&mut self)
        ensures
            *final(self) == old(self).after_advance(),
            old(self).wf() ==> final(self).wf(),
    {
        if self.spr_idx < 8 {
            self.spr_idx = self.spr_idx + 1;
        }
    }
}

} // verus!
