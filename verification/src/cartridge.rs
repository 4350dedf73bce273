//! Reading a cartridge image: header, program and character memory, mapper
//! kind and name-table arrangement.

use vstd::prelude::*;
use crate::error::EmuError;
use crate::util::bit::{bit8, bit_at, bits8, bits_abs8, field};

verus! {

/// The sixteen header bytes of an image, by field.
#[derive(Clone, Copy, Debug)]
pub struct INESHeader {
    pub magic: [u8; 4],
    pub prg_rom_size: u8,
    pub chr_rom_size: u8,
    pub flags6: u8,
    pub flags7: u8,
    pub flags8: u8,
    pub flags9: u8,
    pub flags10: u8,
    pub unused: [u8; 5],
}

/// Whether `bytes` starts with the signature `N`, `E`, `S`, 0x1A.
pub open spec fn has_magic(bytes: Seq<u8>) -> bool {
    bytes.len() >= 4 && bytes[0] == 0x4E && bytes[1] == 0x45 && bytes[2] == 0x53 && bytes[3]
        == 0x1A
}

/// Splits the first eleven bytes of an image into the header's fields.
pub fn parse_ines_header(header_bytes: &[u8]) -> (r: Result<INESHeader, EmuError>)
    requires
        header_bytes@.len() >= 11,
    ensures
        has_magic(header_bytes@) <==> r is Ok,
        r matches Err(e) ==> e == EmuError::BadRomMagic,
        r matches Ok(h) ==> {
            &&& h.prg_rom_size == header_bytes@[4]
            &&& h.chr_rom_size == header_bytes@[5]
            &&& h.flags6 == header_bytes@[6]
            &&& h.flags7 == header_bytes@[7]
            &&& h.flags8 == header_bytes@[8]
            &&& h.flags9 == header_bytes@[9]
            &&& h.flags10 == header_bytes@[10]
            &&& forall|i: int| 0 <= i < 4 ==> h.magic[i] == header_bytes@[i]
            &&& forall|i: int| 0 <= i < 5 ==> h.unused[i] == 0
        },
{
    let header = INESHeader {
        magic: [header_bytes[0], header_bytes[1], header_bytes[2], header_bytes[3]],
        prg_rom_size: header_bytes[4],
        chr_rom_size: header_bytes[5],
        flags6: header_bytes[6],
        flags7: header_bytes[7],
        flags8: header_bytes[8],
        flags9: header_bytes[9],
        flags10: header_bytes[10],
        unused: [0; 5],
    };
    if header.magic[0] != 0x4E || header.magic[1] != 0x45 || header.magic[2] != 0x53
        || header.magic[3] != 0x1A {
        return Err(EmuError::BadRomMagic);
    }
    Ok(header)
}

/// The bank-switching hardware a cartridge carries.
#[derive(Clone, Copy, Debug, PartialEq, Eq, Structural)]
pub enum MapperType {
    Nrom,
    MMC1,
    Uxrom,
    Cnrom,
    MMC3,
    Axrom,
}

impl Default for MapperType {
    fn default() -> (m: MapperType)
        ensures
            m == MapperType::Nrom,
    {
        MapperType::Nrom
    }
}

/// How the four logical name tables fold onto video memory.
#[derive(Clone, Copy, Debug, PartialEq, Eq, Structural)]
pub enum Mirroring {
    Horizontal,
    Vertical,
    OneScreenLowerBank,
    OneScreenUpperBank,
    FourScreen,
    SingleScreen,
}

/// A parsed image.  The two memories are handed on to the mapper that takes
/// them out.
#[derive(Clone)]
pub struct Cartridge {
    pub chr_rom: Option<Vec<u8>>,
    pub mapper_type: MapperType,
    pub mirroring: Mirroring,
    pub prg_rom: Option<Vec<u8>>,
}

/// Number of program bytes the header announces.
pub open spec fn prg_len(file: Seq<u8>) -> int {
    file[4] * 0x4000
}

/// Number of character bytes the header announces.
pub open spec fn chr_len(file: Seq<u8>) -> int {
    file[5] * 0x2000
}

/// The mapper number: low nibble from byte 6, high nibble from byte 7.
pub open spec fn mapper_number(file: Seq<u8>) -> int {
    file[6] / 16 + (file[7] / 16) * 16
}

/// The mapper kind for a supported mapper number.
pub open spec fn mapper_kind(number: int) -> Option<MapperType> {
    if number == 0 {
        Some(MapperType::Nrom)
    } else if number == 1 {
        Some(MapperType::MMC1)
    } else if number == 2 {
        Some(MapperType::Uxrom)
    } else if number == 3 {
        Some(MapperType::Cnrom)
    } else if number == 4 {
        Some(MapperType::MMC3)
    } else if number == 7 {
        Some(MapperType::Axrom)
    } else {
        None
    }
}

/// The arrangement byte 6 asks for: four-screen before vertical, and a
/// single screen for the mapper that pages it.
pub open spec fn mirroring_of(file: Seq<u8>) -> Mirroring {
    if bit_at(file[6] as int, 3) {
        Mirroring::FourScreen
    } else if bit_at(file[6] as int, 0) {
        Mirroring::Vertical
    } else if mapper_number(file) == 7 {
        Mirroring::SingleScreen
    } else {
        Mirroring::Horizontal
    }
}

/// The first reason, in the order of the checks, for which `file` is refused.
pub open spec fn rejection(file: Seq<u8>) -> Option<EmuError> {
    if file.len() < 16 {
        Some(EmuError::TruncatedRom)
    } else if !has_magic(file) {
        Some(EmuError::BadRomMagic)
    } else if file[8] > 1 {
        Some(EmuError::PrgRamTooBig)
    } else if bit_at(file[6] as int, 2) {
        Some(EmuError::TrainerUnsupported)
    } else if field(file[7] as int, 2, 3, 8) >= 2 {
        Some(EmuError::UnsupportedInesVersion)
    } else if file.len() < 16 + prg_len(file) + chr_len(file) {
        Some(EmuError::TruncatedRom)
    } else if mapper_kind(mapper_number(file)) is None {
        Some(EmuError::UnsupportedMapper(mapper_number(file) as u8))
    } else {
        None
    }
}

/// Copies `len` bytes of `file` from `start` on.
fn copy_range(file: &[u8], start: usize, len: usize) -> (v: Vec<u8>)
    requires
        start + len <= file@.len(),
    ensures
        v@ == file@.subrange(start as int, start + len),
{
    let mut v: Vec<u8> = Vec::new();
    let mut i: usize = 0;
    let total: usize = file.len();
    while i < len
        invariant
            i <= len,
            start + len <= file@.len(),
            file@.len() == total,
            v@ == file@.subrange(start as int, start + i),
        decreases len - i,
    {
        v.push(file[start + i]);
        assert(v@ == file@.subrange(start as int, start + i + 1));
        i = i + 1;
    }
    v
}

impl Cartridge {
    /// Whether a machine can be built around the cartridge: both memories
    /// are present and the program ROM has a size its mapper can map; the
    /// flat test memory takes an empty, a 16 KiB or a 32 KiB program ROM.
    pub open spec fn fits_slot(self, mock: bool) -> bool {
        &&& self.chr_rom is Some
        &&& self.prg_rom matches Some(prg)
        &&& if mock {
            prg@.len() == 0 || prg@.len() == 0x4000 || prg@.len() == 0x8000
        } else {
            match self.mapper_type {
                MapperType::Nrom | MapperType::Cnrom => prg@.len() == 0x4000 || prg@.len()
                    == 0x8000,
                MapperType::MMC1 | MapperType::Uxrom | MapperType::MMC3 => prg@.len() >= 0x4000,
                MapperType::Axrom => true,
            }
        }
    }

    /// Computes `fits_slot`.
    pub fn is_loadable(&self, mock: bool) -> (r: bool)
        ensures
            r == self.fits_slot(mock),
    {
        if self.chr_rom.is_none() {
            return false;
        }
        match &self.prg_rom {
            None => false,
            Some(prg) => {
                let len: usize = prg.len();
                if mock {
                    len == 0 || len == 0x4000 || len == 0x8000
                } else {
                    match self.mapper_type {
                        MapperType::Nrom | MapperType::Cnrom => len == 0x4000 || len == 0x8000,
                        MapperType::MMC1 | MapperType::Uxrom | MapperType::MMC3 => len >= 0x4000,
                        MapperType::Axrom => true,
                    }
                }
            },
        }
    }

    /// Parses an image.  It is refused exactly when `rejection` names a
    /// reason; otherwise the program bytes follow the header and the
    /// character bytes follow the program bytes.
    pub fn new(file: &[u8]) -> (r: Result<Cartridge, EmuError>)
        ensures
            match rejection(file@) {
                Some(e) => r == Err::<Cartridge, EmuError>(e),
                None => r matches Ok(c) && {
                    &&& c.prg_rom matches Some(prg) && prg@ == file@.subrange(
                        16,
                        16 + prg_len(file@),
                    )
                    &&& c.chr_rom matches Some(chr) && chr@ == file@.subrange(
                        16 + prg_len(file@),
                        16 + prg_len(file@) + chr_len(file@),
                    )
                    &&& Some(c.mapper_type) == mapper_kind(mapper_number(file@))
                    &&& c.mirroring == mirroring_of(file@)
                },
            },
    {
        if file.len() < 16 {
            return Err(EmuError::TruncatedRom);
        }
        let header = match parse_ines_header(file) {
            Ok(h) => h,
            Err(e) => {
                return Err(e);
            },
        };
        let prg_rom_size: usize = header.prg_rom_size as usize * 0x4000;
        let chr_rom_size: usize = header.chr_rom_size as usize * 0x2000;
        if header.flags8 > 1 {
            return Err(EmuError::PrgRamTooBig);
        }
        if bit8(header.flags6, 2) {
            return Err(EmuError::TrainerUnsupported);
        }
        let ines_ver: u8 = bits8(header.flags7, 2, 3);
        if ines_ver >= 2 {
            return Err(EmuError::UnsupportedInesVersion);
        }
        let mapper_ln: u8 = bits8(header.flags6, 4, 7);
        let mapper_un: u8 = bits_abs8(header.flags7, 4, 7);
        let mapper_num: u8 = mapper_ln + mapper_un;
        let mirroring = if bit8(header.flags6, 3) {
            Mirroring::FourScreen
        } else if bit8(header.flags6, 0) {
            Mirroring::Vertical
        } else if mapper_num == 7 {
            Mirroring::SingleScreen
        } else {
            Mirroring::Horizontal
        };
        if file.len() < 16 + prg_rom_size + chr_rom_size {
            return Err(EmuError::TruncatedRom);
        }
        let start_of_chr_rom: usize = 0x10 + prg_rom_size;
        let chr_rom = copy_range(file, start_of_chr_rom, chr_rom_size);
        let prg_rom = copy_range(file, 0x10, prg_rom_size);
        let mapper_type = if mapper_num == 0 {
            MapperType::Nrom
        } else if mapper_num == 1 {
            MapperType::MMC1
        } else if mapper_num == 2 {
            MapperType::Uxrom
        } else if mapper_num == 3 {
            MapperType::Cnrom
        } else if mapper_num == 4 {
            MapperType::MMC3
        } else if mapper_num == 7 {
            MapperType::Axrom
        } else {
            return Err(EmuError::UnsupportedMapper(mapper_num));
        };
        Ok(Cartridge { chr_rom: Some(chr_rom), mapper_type, mirroring, prg_rom: Some(prg_rom) })
    }
}

} // verus!
