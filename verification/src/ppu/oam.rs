//! Sprite memory and the evaluation of the sprites that meet a scanline.

use vstd::prelude::*;
use crate::util::bit::{bit8, bit_at, bits8};
use crate::util::{bool_bit, flag_bit, wrap_add8};

verus! {

/// The attribute byte of a sprite.  The palette number is kept as 4 to 7,
/// the sprite half of palette memory.
#[derive(Clone, Copy, Debug)]
pub struct Attributes {
    pub palette: u8,
    pub priority: bool,
    pub flip_horiz: bool,
    pub flip_vert: bool,
}

impl Attributes {
    /// The palette number has three bits.
    pub open spec fn wf(self) -> bool {
        self.palette <= 7
    }

    /// The attributes a byte decodes to.
    pub open spec fn decoded(item: u8) -> Attributes {
        Attributes {
            palette: (item % 4 + 4) as u8,
            priority: bit_at(item as int, 5),
            flip_horiz: bit_at(item as int, 6),
            flip_vert: bit_at(item as int, 7),
        }
    }

    /// The byte that decoded attributes encode to.
    pub open spec fn encoded(self) -> u8 {
        (bool_bit(self.flip_vert) * 128 + bool_bit(self.flip_horiz) * 64 + bool_bit(self.priority)
            * 32 + (self.palette - 4)) as u8
    }

    /// Attributes of an empty sprite slot.
    pub fn new() -> (a: Attributes)
        ensures
            a == (Attributes { palette: 0, priority: false, flip_horiz: false, flip_vert: false }),
            a.wf(),
    {
        Attributes { palette: 0, priority: false, flip_horiz: false, flip_vert: false }
    }

    /// Decodes an attribute byte.
    pub fn from_byte(item: u8) -> (a: Attributes)
        ensures
            a == Attributes::decoded(item),
            a.wf(),
    {
        let palette: u8 = bits8(item, 0, 1);
        Attributes {
            palette: palette + 4,
            priority: bit8(item, 5),
            flip_horiz: bit8(item, 6),
            flip_vert: bit8(item, 7),
        }
    }

    /// Encodes decoded attributes as a byte.
    pub fn to_byte(self) -> (b: u8)
        requires
            4 <= self.palette <= 7,
        ensures
            b == self.encoded(),
    {
        let palette: u8 = self.palette - 4;
        flag_bit(self.flip_vert) * 128 + flag_bit(self.flip_horiz) * 64 + flag_bit(self.priority)
            * 32 + palette
    }
}

/// One sprite: position, tile and attributes.
#[derive(Clone, Copy, Debug)]
pub struct Sprite {
    pub y: u8,
    pub tile_idx: u8,
    pub attrib: Attributes,
    pub x: u8,
}

impl Sprite {
    /// The sprite stored in four bytes `y`, tile, attributes, `x`.
    pub open spec fn decoded(y: u8, tile_idx: u8, attrib: u8, x: u8) -> Sprite {
        Sprite { y, tile_idx, attrib: Attributes::decoded(attrib), x }
    }

    /// Decodes the first four bytes of `item`.
    pub fn from_bytes(item: &[u8]) -> (s: Sprite)
        requires
            item@.len() >= 4,
        ensures
            s == Sprite::decoded(item@[0], item@[1], item@[2], item@[3]),
            s.attrib.wf(),
    {
        Sprite { y: item[0], tile_idx: item[1], attrib: Attributes::from_byte(item[2]), x: item[3] }
    }
}

/// Sprite memory: 64 sprites of four bytes, and the list of up to eight
/// sprites found for a scanline.  A list entry holds the sprite's address in
/// sprite memory, the sprite, and the row of the sprite that meets the line.
#[derive(Clone, Copy, Debug)]
pub struct Oam {
    pub buffer: [u8; 256],
    pub overflow: bool,
    pub sprites: [(usize, Sprite, usize); 8],
    pub count: usize,
    pub addr: u8,
}

impl Oam {
    /// At most eight sprites are listed, each with a three-bit palette number.
    pub open spec fn wf(self) -> bool {
        &&& self.count <= 8
        &&& forall|i: int| 0 <= i < 8 ==> (#[trigger] self.sprites[i]).1.attrib.wf()
    }

    /// The sprite stored at index `i` of the 64.
    pub open spec fn sprite_at(self, i: int) -> Sprite {
        Sprite::decoded(
            self.buffer[4 * i],
            self.buffer[4 * i + 1],
            self.buffer[4 * i + 2],
            self.buffer[4 * i + 3],
        )
    }

    /// Whether sprite `i`, whose first row shows one line below its
    /// coordinate, has a row on `scanline`; `size` is 64 or 128 pixels.
    pub open spec fn meets(self, scanline: int, size: u8, i: int) -> bool {
        0 <= scanline - (self.buffer[4 * i] + 1) < size / 8
    }

    /// The list after sprite `i` was examined: a sprite that meets the line
    /// is listed while there is room, and flags the overflow when there is none.
    pub open spec fn after_examining(self, scanline: int, size: u8, i: int) -> Self {
        if !self.meets(scanline, size, i) {
            self
        } else if self.count >= 8 {
            Oam { overflow: true, ..self }
        } else {
            Oam {
                sprites: vstd::array::spec_array_update(
                    self.sprites,
                    self.count as int,
                    (
                        (4 * i) as usize,
                        self.sprite_at(i),
                        (scanline - (self.buffer[4 * i] + 1)) as usize,
                    ),
                ),
                count: (self.count + 1) as usize,
                ..self
            }
        }
    }

    /// The list after the first `n` sprites were examined, from an empty list.
    pub open spec fn after_evaluating(self, scanline: int, size: u8, n: int) -> Self
        decreases n,
    {
        if n <= 0 {
            Oam { overflow: false, count: 0, ..self }
        } else {
            self.after_evaluating(scanline, size, n - 1).after_examining(scanline, size, n - 1)
        }
    }

    /// What a read returns: the byte at the current address.
    pub open spec fn read_value(self) -> u8 {
        self.buffer[self.addr as int]
    }

    /// Sprite memory after a read, which moves the address on if asked to.
    pub open spec fn after_read(self, increment: bool) -> Self {
        if increment {
            Oam { addr: wrap_add8(self.addr, 1), ..self }
        } else {
            self
        }
    }

    /// Sprite memory after `data` was written at the current address.
    pub open spec fn after_write(self, data: u8) -> Self {
        Oam {
            buffer: vstd::array::spec_array_update(self.buffer, self.addr as int, data),
            addr: wrap_add8(self.addr, 1),
            ..self
        }
    }

    /// Empty sprite memory.
    pub fn new() -> (o: Oam)
        ensures
            o.wf(),
            o.count == 0,
            o.addr == 0,
            !o.overflow,
            forall|i: int| 0 <= i < 256 ==> o.buffer[i] == 0,
    {
        let empty = Sprite { y: 0, tile_idx: 0, attrib: Attributes::new(), x: 0 };
        Oam {
            buffer: [0; 256],
            overflow: false,
            sprites: [(0usize, empty, 0usize); 8],
            count: 0,
            addr: 0,
        }
    }

    /// The current address.
    pub fn addr(&self) -> (a: u8)
        ensures
            a == self.addr,
    {
        self.addr
    }

    /// Lists the first eight sprites, in memory order, that have a row on
    /// `scanline`, and flags the overflow if there is a ninth.
    pub fn calculate_sprites_on_scanline(&mut self, scanline: usize, size: u8)
        requires
            old(self).wf(),
            scanline <= 0x7FFF,
        ensures
            *final(self) == old(self).after_evaluating(scanline as int, size, 64),
            final(self).wf(),
    {
        self.count = 0;
        self.overflow = false;
        let spr_height: usize = (size / 8) as usize;
        let mut i: usize = 0;
        while i < 64
            invariant
                i <= 64,
                scanline <= 0x7FFF,
                spr_height == size / 8,
                self.wf(),
                *self == old(self).after_evaluating(scanline as int, size, i as int),
            decreases 64 - i,
        {
            let spr_addr: usize = 4 * i;
            let spr_y: usize = self.buffer[spr_addr] as usize + 1;
            if scanline >= spr_y && scanline - spr_y < spr_height {
                if self.count >= 8 {
                    self.overflow = true;
                } else {
                    let sprite = Sprite {
                        y: self.buffer[spr_addr],
                        tile_idx: self.buffer[spr_addr + 1],
                        attrib: Attributes::from_byte(self.buffer[spr_addr + 2]),
                        x: self.buffer[spr_addr + 3],
                    };
                    self.sprites[self.count] = (spr_addr, sprite, scanline - spr_y);
                    self.count = self.count + 1;
                }
            }
            i = i + 1;
        }
    }

    /// Reads the byte at the current address.
    pub fn read(&mut self, increment: bool) -> (data: u8)
        ensures
            data == old(self).read_value(),
            *final(self) == old(self).after_read(increment),
    {
        let addr: u8 = self.addr;
        let data: u8 = self.buffer[addr as usize];
        if increment {
            self.addr = crate::util::add8(addr, 1);
        }
        data
    }

    /// Sets the current address.
    pub fn set_addr(&mut self, addr: u8)
        ensures
            *final(self) == (Oam { addr, ..*old(self) }),
    {
        self.addr = addr;
    }

    /// The 256 bytes of sprite memory.
    pub fn sprites(&self) -> (bytes: &[u8; 256])
        ensures
            *bytes == self.buffer,
    {
        &self.buffer
    }

    /// Writes a byte at the current address and moves the address on.
    pub fn write(&mut self, data: u8)
        ensures
            *final(self) == old(self).after_write(data),
    {
        let addr: u8 = self.addr;
        self.buffer[addr as usize] = data;
        self.addr = crate::util::add8(addr, 1);
    }
}

/// The number of sprites among the first `n` that have a row on the line.
pub open spec fn meeting_count(o: Oam, scanline: int, size: u8, n: int) -> int
    decreases n,
{
    if n <= 0 {
        0
    } else {
        meeting_count(o, scanline, size, n - 1) + if o.meets(scanline, size, n - 1) {
            1int
        } else {
            0int
        }
    }
}

/// Evaluation lists as many sprites as meet the line, up to eight, and flags
/// the overflow exactly when more than eight do; sprite memory itself is untouched.
pub proof fn lemma_evaluation_counts(o: Oam, scanline: int, size: u8, n: int)
    requires
        0 <= n <= 64,
    ensures
        ({
            let e = o.after_evaluating(scanline, size, n);
            let m = meeting_count(o, scanline, size, n);
            &&& e.buffer == o.buffer
            &&& e.addr == o.addr
            &&& e.count == if m <= 8 { m } else { 8 }
            &&& e.overflow == (m > 8)
        }),
    decreases n,
{
    if n > 0 {
        lemma_evaluation_counts(o, scanline, size, n - 1);
        let p = o.after_evaluating(scanline, size, n - 1);
        assert(p.meets(scanline, size, n - 1) == o.meets(scanline, size, n - 1));
    }
}

} // verus!
