//! The colours the picture unit can show.

use vstd::prelude::*;

verus! {

/// Red, green and blue of the 64 colours, three bytes each.
pub const BASE_COLORS: [u8; 192] = [
    84, 84, 84, 0, 30, 116, 8, 16, 144, 48, 0, 136, 68, 0, 100, 92, 0, 48, 84, 4, 0, 60, 24, 0,
    32, 42, 0, 8, 58, 0, 0, 64, 0, 0, 60, 0, 0, 50, 60, 0, 0, 0, 0, 0, 0, 0, 0, 0,
    152, 150, 152, 8, 76, 196, 48, 50, 236, 92, 30, 228, 136, 20, 176, 160, 20, 100, 152, 34, 32,
    120, 60, 0, 84, 90, 0, 40, 114, 0, 8, 124, 0, 0, 118, 40, 0, 102, 120, 0, 0, 0, 0, 0, 0, 0, 0,
    0,
    236, 238, 236, 76, 154, 236, 120, 124, 236, 176, 98, 236, 228, 84, 236, 236, 88, 180, 236,
    106, 100, 212, 136, 32, 160, 170, 0, 116, 196, 0, 76, 208, 32, 56, 204, 108, 56, 180, 204, 60,
    60, 60, 0, 0, 0, 0, 0, 0,
    236, 238, 236, 168, 204, 236, 188, 188, 236, 212, 178, 236, 236, 174, 236, 236, 174, 212, 236,
    180, 176, 228, 196, 144, 204, 210, 120, 180, 222, 120, 168, 226, 144, 152, 226, 180, 160, 214,
    228, 160, 162, 160, 0, 0, 0, 0, 0, 0,
];

/// A colour: red, green, blue, opacity.
#[derive(Clone, Copy, Debug)]
pub struct Rgba(pub u8, pub u8, pub u8, pub u8);

impl Rgba {
    /// The colour as one word: opacity in the top byte, then blue, green, red.
    pub open spec fn packed(self) -> u32 {
        (self.3 * 0x100_0000 + self.2 * 0x1_0000 + self.1 * 0x100 + self.0) as u32
    }

    /// Packs the colour into one word.
    pub fn to_u32(self) -> (w: u32)
        ensures
            w == self.packed(),
    {
        (self.3 as u32) * 0x100_0000 + (self.2 as u32) * 0x1_0000 + (self.1 as u32) * 0x100 + (
        self.0 as u32)
    }

    /// The four components in the order opacity, blue, green, red.
    pub fn to_bytes(self) -> (b: [u8; 4])
        ensures
            b@ == seq![self.3, self.2, self.1, self.0],
    {
        [self.3, self.2, self.1, self.0]
    }
}

/// Colour `i` of the base table, fully opaque.
pub open spec fn base_color(i: int) -> Rgba {
    Rgba(BASE_COLORS[3 * i], BASE_COLORS[3 * i + 1], BASE_COLORS[3 * i + 2], 255)
}

/// One table of 64 colours.
#[derive(Clone, Copy, Debug)]
pub struct Palette(pub [Rgba; 64]);

/// The eight colour tables, one per combination of the emphasis bits, and
/// the one in use.
#[derive(Clone, Copy, Debug)]
pub struct PaletteTable {
    pub palettes: [Palette; 8],
    pub selected: usize,
}

impl PaletteTable {
    /// A table is selected.
    pub open spec fn wf(self) -> bool {
        self.selected < 8
    }

    /// Colour `index` of the selected table.
    pub open spec fn color_at(self, index: int) -> Rgba {
        self.palettes[self.selected as int].0[index]
    }

    /// The eight tables, each holding the base colours; table 0 selected.
    pub fn new() -> (t: PaletteTable)
        ensures
            t.wf(),
            t.selected == 0,
            forall|p: int, i: int|
                0 <= p < 8 && 0 <= i < 64 ==> #[trigger] t.palettes[p].0[i] == base_color(i),
    {
        let mut colors: [Rgba; 64] = [Rgba(0, 0, 0, 0); 64];
        let mut i: usize = 0;
        while i < 64
            invariant
                i <= 64,
                forall|j: int| 0 <= j < i ==> colors[j] == base_color(j),
            decreases 64 - i,
        {
            colors[i] = Rgba(
                BASE_COLORS[3 * i],
                BASE_COLORS[3 * i + 1],
                BASE_COLORS[3 * i + 2],
                255,
            );
            i = i + 1;
        }
        PaletteTable { palettes: [Palette(colors); 8], selected: 0 }
    }

    /// Selects the table for an emphasis combination.
    pub fn select_palette(&mut self, idx: usize)
        requires
            idx < 8,
        ensures
            *final(self) == (PaletteTable { selected: idx, ..*old(self) }),
            final(self).wf(),
    {
        self.selected = idx;
    }

    /// Colour `index` of the selected table.
    pub fn color(&self, index: u8) -> (c: Rgba)
        requires
            self.wf(),
            index < 64,
        ensures
            c == self.color_at(index as int),
    {
        let palette: &Palette = &self.palettes[self.selected];
        palette.0[index as usize]
    }
}

} // verus!
