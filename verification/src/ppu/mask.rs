//! The mask register of the picture unit.

use vstd::prelude::*;
use crate::util::bit::{bit8, bit_at};
use crate::util::{bool_bit, flag_bit};

verus! {

/// The fields of the mask register.
#[derive(Clone, Copy, Debug)]
pub struct Mask {
    pub emphasize_blue: bool,
    pub emphasize_green: bool,
    pub emphasize_red: bool,
    pub show_sprites: bool,
    pub show_background: bool,
    pub show_sprites_leftmost_8: bool,
    pub show_background_leftmost_8: bool,
    pub greyscale: bool,
}

impl Mask {
    /// The register a byte decodes to.
    pub open spec fn decoded(item: u8) -> Mask {
        Mask {
            emphasize_blue: bit_at(item as int, 7),
            emphasize_green: bit_at(item as int, 6),
            emphasize_red: bit_at(item as int, 5),
            show_sprites: bit_at(item as int, 4),
            show_background: bit_at(item as int, 3),
            show_sprites_leftmost_8: bit_at(item as int, 2),
            show_background_leftmost_8: bit_at(item as int, 1),
            greyscale: bit_at(item as int, 0),
        }
    }

    /// The byte the register encodes to.
    pub open spec fn encoded(self) -> u8 {
        (bool_bit(self.emphasize_blue) * 128 + bool_bit(self.emphasize_green) * 64 + bool_bit(
            self.emphasize_red,
        ) * 32 + bool_bit(self.show_sprites) * 16 + bool_bit(self.show_background) * 8 + bool_bit(
            self.show_sprites_leftmost_8,
        ) * 4 + bool_bit(self.show_background_leftmost_8) * 2 + bool_bit(self.greyscale)) as u8
    }

    /// The three emphasis bits as a number from 0 to 7.
    pub open spec fn emphasis(self) -> int {
        bool_bit(self.emphasize_blue) * 4 + bool_bit(self.emphasize_green) * 2 + bool_bit(
            self.emphasize_red,
        )
    }

    /// The register at power-up: everything shown, no emphasis.
    pub fn new() -> (m: Mask)
        ensures
            m == (Mask {
                emphasize_blue: false,
                emphasize_green: false,
                emphasize_red: false,
                show_sprites: true,
                show_background: true,
                show_sprites_leftmost_8: true,
                show_background_leftmost_8: true,
                greyscale: false,
            }),
    {
        Mask {
            emphasize_blue: false,
            emphasize_green: false,
            emphasize_red: false,
            show_sprites: true,
            show_background: true,
            show_sprites_leftmost_8: true,
            show_background_leftmost_8: true,
            greyscale: false,
        }
    }

    /// Decodes a written byte.
    pub fn from_byte(item: u8) -> (m: Mask)
        ensures
            m == Mask::decoded(item),
    {
        Mask {
            emphasize_blue: bit8(item, 7),
            emphasize_green: bit8(item, 6),
            emphasize_red: bit8(item, 5),
            show_sprites: bit8(item, 4),
            show_background: bit8(item, 3),
            show_sprites_leftmost_8: bit8(item, 2),
            show_background_leftmost_8: bit8(item, 1),
            greyscale: bit8(item, 0),
        }
    }

    /// Encodes the register as a byte.
    pub fn to_byte(self) -> (b: u8)
        ensures
            b == self.encoded(),
    {
        flag_bit(self.emphasize_blue) * 128 + flag_bit(self.emphasize_green) * 64 + flag_bit(
            self.emphasize_red,
        ) * 32 + flag_bit(self.show_sprites) * 16 + flag_bit(self.show_background) * 8 + flag_bit(
            self.show_sprites_leftmost_8,
        ) * 4 + flag_bit(self.show_background_leftmost_8) * 2 + flag_bit(self.greyscale)
    }
}

impl Mask {
    /// Bits 5 to 7 of the encoded register: which colour variant is shown.
    pub fn emphasis_index(self) -> (i: usize)
        ensures
            i == self.emphasis(),
            i < 8,
    {
        let i: u8 = flag_bit(self.emphasize_blue) * 4 + flag_bit(self.emphasize_green) * 2
            + flag_bit(self.emphasize_red);
        i as usize
    }
}

/// The emphasis index is the top three bits of the encoded register.
pub proof fn lemma_emphasis_is_top_bits(m: Mask)
    ensures
        m.encoded() as int / 32 == m.emphasis(),
{
    let low = bool_bit(m.show_sprites) * 16 + bool_bit(m.show_background) * 8 + bool_bit(
        m.show_sprites_leftmost_8,
    ) * 4 + bool_bit(m.show_background_leftmost_8) * 2 + bool_bit(m.greyscale);
    assert(0 <= low < 32);
    assert(m.encoded() as int == m.emphasis() * 32 + low);
}

/// Decoding the encoded register gives the register back.
pub proof fn lemma_mask_round_trip(m: Mask)
    ensures
        Mask::decoded(m.encoded()) == m,
{
}

} // verus!
