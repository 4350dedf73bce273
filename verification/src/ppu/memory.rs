//! The memory behind the picture bus: banked character memory, the name
//! tables with their mirroring, and palette memory.

use vstd::prelude::*;
use crate::cartridge::Mirroring;
use crate::bus::mapper::{BankSettings, Window};
use crate::cartridge::MapperType;
use crate::ppu::mmc3::Mmc3;

verus! {

/// The name-table page and offset that address `addr` of 0x2000-0x3EFF folds
/// to: vertical arrangement alternates pages left to right, horizontal top to
/// bottom, the one-screen kinds use one page, four-screen uses four.
pub open spec fn mirror_index(mirroring: Mirroring, page_select: u8, addr: u16) -> int {
    let table = ((addr - 0x2000) / 0x400) % 4;
    let page = match mirroring {
        Mirroring::Vertical => table % 2,
        Mirroring::Horizontal => table / 2,
        Mirroring::OneScreenLowerBank => 0,
        Mirroring::OneScreenUpperBank => 1,
        Mirroring::FourScreen => table,
        Mirroring::SingleScreen => page_select as int,
    };
    page * 0x400 + addr % 0x400
}

/// The palette entry behind address `addr`: entries 0x10, 0x14, 0x18 and
/// 0x1C are the entries 0x00, 0x04, 0x08 and 0x0C.
pub open spec fn palette_slot(addr: u16) -> int {
    let a = addr % 0x20;
    if a == 0x10 || a == 0x14 || a == 0x18 || a == 0x1C {
        a - 0x10
    } else {
        a as int
    }
}

/// A palette value as shown: in greyscale only bits 4 and 5 remain.
pub open spec fn shade(data: u8, greyscale: bool) -> u8 {
    if greyscale {
        (((data / 16) % 4) * 16) as u8
    } else {
        data
    }
}

/// The character routing table a mapper kind starts with.
pub open spec fn initial_windows(mapper_type: MapperType) -> Seq<Window> {
    match mapper_type {
        MapperType::MMC1 => seq![
            Window { bank: 0, start: 0, end: 0x1000 },
            Window { bank: 1, start: 0x1000, end: 0x2000 },
        ],
        MapperType::MMC3 => seq![
            Window { bank: 0, start: 0x0000, end: 0x0800 },
            Window { bank: 1, start: 0x0800, end: 0x1000 },
            Window { bank: 2, start: 0x1000, end: 0x1400 },
            Window { bank: 3, start: 0x1400, end: 0x1800 },
            Window { bank: 4, start: 0x1800, end: 0x1C00 },
            Window { bank: 5, start: 0x1C00, end: 0x2000 },
        ],
        _ => seq![Window { bank: 0, start: 0, end: 0x2000 }],
    }
}

/// Everything the picture bus can address, and how addresses are routed.
#[derive(Clone)]
pub struct VideoMemory {
    pub bank_settings: BankSettings,
    /// Character ROM; empty when the cartridge carries character RAM instead.
    pub chr: Vec<u8>,
    /// Character RAM, used when `ram` is set.
    pub chr_ram: [u8; 0x2000],
    pub mirroring: Mirroring,
    pub mmc3: Option<Mmc3>,
    pub mmc7_vram_page: u8,
    pub ram: bool,
    pub pram: [u8; 0x20],
    pub vram: [u8; 0x800],
    /// The first video address that reached a bank the cartridge does not hold.
    pub fault: Option<u16>,
}

impl VideoMemory {
    /// The routing table and the page select are in range.
    pub open spec fn wf(self) -> bool {
        self.bank_settings.wf() && self.mmc7_vram_page <= 1
    }

    /// The memory with `addr` recorded as unreachable, unless an earlier address already is.
    pub open spec fn with_fault(self, addr: u16) -> VideoMemory {
        VideoMemory {
            fault: if self.fault is Some {
                self.fault
            } else {
                Some(addr)
            },
            ..self
        }
    }

    /// Whether `self` is the memory at power-up: all bytes zero, the
    /// routing table of the mapper kind, no fault.
    pub open spec fn is_initial(
        self,
        chr_rom: Vec<u8>,
        mirroring: Mirroring,
        mapper_type: MapperType,
    ) -> bool {
        &&& self.bank_settings == BankSettings::of(initial_windows(mapper_type))
        &&& self.chr == chr_rom
        &&& self.ram == (chr_rom@.len() == 0)
        &&& self.mirroring == mirroring
        &&& (mapper_type == MapperType::MMC3 ==> (self.mmc3 matches Some(m) && m.irq.counter == 0
            && !m.irq.enabled && !m.irq.occurred && m.irq.reload == 0 && m.selected_bank_register
            == 0 && forall|i: int| 0 <= i < 6 ==> m.banks[i] == 0))
        &&& (mapper_type != MapperType::MMC3 ==> self.mmc3 is None)
        &&& self.mmc7_vram_page == 0
        &&& self.fault is None
        &&& forall|i: int| 0 <= i < 0x2000 ==> self.chr_ram[i] == 0
        &&& forall|i: int| 0 <= i < 0x20 ==> self.pram[i] == 0
        &&& forall|i: int| 0 <= i < 0x800 ==> self.vram[i] == 0
    }

    /// The memory at power-up.
    pub fn new(chr_rom: Vec<u8>, mirroring: Mirroring, mapper_type: MapperType) -> (m: VideoMemory)
        ensures
            m.is_initial(chr_rom, mirroring, mapper_type),
            m.wf(),
    {
        let bank_settings = BankSettings::new(
            match mapper_type {
                MapperType::MMC1 => vec![(0usize, 0i32..0x1000i32), (1usize, 0x1000i32..0x2000i32)],
                MapperType::MMC3 => vec![
                    (0usize, 0x0000i32..0x0800i32),
                    (1usize, 0x0800i32..0x1000i32),
                    (2usize, 0x1000i32..0x1400i32),
                    (3usize, 0x1400i32..0x1800i32),
                    (4usize, 0x1800i32..0x1C00i32),
                    (5usize, 0x1C00i32..0x2000i32),
                ],
                _ => vec![(0usize, 0i32..0x2000i32)],
            },
        );
        let ram: bool = chr_rom.len() == 0;
        let m = VideoMemory {
            bank_settings,
            chr: chr_rom,
            chr_ram: [0; 0x2000],
            mirroring,
            mmc3: if mapper_type == MapperType::MMC3 {
                Some(Mmc3::new())
            } else {
                None
            },
            mmc7_vram_page: 0,
            ram,
            pram: [0; 0x20],
            vram: [0; 0x800],
            fault: None,
        };
        assert(m.bank_settings == BankSettings::of(initial_windows(mapper_type))) by {
            assert(m.bank_settings.windows =~= BankSettings::of(
                initial_windows(mapper_type),
            ).windows);
        }
        m
    }

    /// Changes the name-table arrangement.
    pub fn set_mirroring_mode(&mut self, mode: Mirroring)
        ensures
            *final(self) == (VideoMemory { mirroring: mode, ..*old(self) }),
    {
        self.mirroring = mode;
    }

    /// The index into character memory that `addr` of 0x0000-0x1FFF is
    /// routed to, if a window holds the address.  With the scanline-counting
    /// mapper the window names a bank register, and banks are 1 KiB.
    pub open spec fn chr_slot(self, addr: u16) -> Option<int> {
        match self.bank_settings.window_of(addr as i32) {
            None => None,
            Some(w) => {
                let size = w.end - w.start;
                match self.mmc3 {
                    Some(m) => if w.bank < 6 {
                        let a = addr as int % size;
                        let bank = m.banks[w.bank as int] + if a >= 0x400 {
                            1int
                        } else {
                            0int
                        };
                        Some(bank * 0x400 + a % 0x400)
                    } else {
                        None
                    },
                    None => Some(w.bank * size + addr as int % size),
                }
            },
        }
    }

    /// The number of character bytes the cartridge holds.
    pub open spec fn chr_size(self) -> int {
        if self.ram {
            0x2000
        } else {
            self.chr@.len() as int
        }
    }

    /// What a character read at `addr` returns and leaves behind: the routed
    /// byte, or 0 and a recorded fault when the route leaves the memory.
    #[verifier::opaque]
    pub open spec fn reading_chr(self, addr: u16) -> (u8, VideoMemory) {
        match self.chr_slot(addr) {
            Some(i) if i < self.chr_size() => (
                if self.ram {
                    self.chr_ram[i]
                } else {
                    self.chr@[i]
                },
                self,
            ),
            _ => (0, self.with_fault(addr)),
        }
    }

    /// The memory after a character write at `addr`; only character RAM takes it.
    #[verifier::opaque]
    pub open spec fn after_write_chr(self, addr: u16, data: u8) -> VideoMemory {
        match self.chr_slot(addr) {
            Some(i) if i < 0x2000 => VideoMemory {
                chr_ram: vstd::array::spec_array_update(self.chr_ram, i, data),
                ..self
            },
            _ => self.with_fault(addr),
        }
    }

    /// What a name-table read at `addr` of 0x2000-0x3EFF returns and leaves behind.
    #[verifier::opaque]
    pub open spec fn reading_nametable(self, addr: u16) -> (u8, VideoMemory) {
        let i = mirror_index(self.mirroring, self.mmc7_vram_page, addr);
        if i < 0x800 {
            (self.vram[i], self)
        } else {
            (0, self.with_fault(addr))
        }
    }

    /// What a read at `a`, an address below 0x4000, returns and leaves
    /// behind when palette entries are read raw and the read buffer is left alone.
    #[verifier::opaque]
    pub open spec fn reading_plain(self, a: u16) -> (u8, VideoMemory) {
        if a < 0x2000 {
            self.reading_chr(a)
        } else if a < 0x3F00 {
            self.reading_nametable(a)
        } else {
            (self.pram[palette_slot(a)], self)
        }
    }

    /// The memory after `data` was written at `addr`.
    #[verifier::opaque]
    pub open spec fn after_write(self, addr: u16, data: u8) -> VideoMemory {
        let a = (addr % 0x4000) as u16;
        if a < 0x2000 {
            if self.ram {
                self.after_write_chr(a, data)
            } else {
                self
            }
        } else if a < 0x3F00 {
            self.after_write_nametable(a, data)
        } else {
            self.after_write_palette(a, data)
        }
    }

    /// The memory after `data` was written to the palette entry behind `a`.
    #[verifier::opaque]
    pub open spec fn after_write_palette(self, a: u16, data: u8) -> VideoMemory {
        VideoMemory { pram: vstd::array::spec_array_update(self.pram, palette_slot(a), data), ..self }
    }

    /// The memory after `data` was written to the name tables at `a` of 0x2000-0x3EFF.
    #[verifier::opaque]
    pub open spec fn after_write_nametable(self, a: u16, data: u8) -> VideoMemory {
        let i = mirror_index(self.mirroring, self.mmc7_vram_page, a);
        if i < 0x800 {
            VideoMemory { vram: vstd::array::spec_array_update(self.vram, i, data), ..self }
        } else {
            self.with_fault(a)
        }
    }

    /// Records `addr` as unreachable unless an earlier address already is.
    pub fn record_fault(&mut self, addr: u16)
        ensures
            *final(self) == old(self).with_fault(addr),
    {
        if self.fault.is_none() {
            self.fault = Some(addr);
        }
    }

    /// Computes `chr_slot`, as far as the index fits the machine word.
    pub fn addr_to_bank_and_offset(&self, addr: u16) -> (r: Option<usize>)
        requires
            self.bank_settings.wf(),
        ensures
            match self.chr_slot(addr) {
                Some(i) => 0 <= i && if i <= usize::MAX {
                    r == Some(i as usize)
                } else {
                    r is None
                },
                None => r is None,
            },
    {
        let w = match self.bank_settings.lookup(addr as i32) {
            Some(w) => w,
            None => {
                return None;
            },
        };
        let size: usize = (w.end as i64 - w.start as i64) as usize;
        let a: usize = addr as usize % size;
        match &self.mmc3 {
            Some(m) => {
                if w.bank >= 6 {
                    return None;
                }
                let bank: usize = m.banks[w.bank];
                let bank: usize = if a >= 0x400 {
                    match bank.checked_add(1) {
                        Some(b) => b,
                        None => {
                            assert(bank * 0x400 + 0x400 > usize::MAX) by (nonlinear_arith)
                                requires
                                    bank == usize::MAX,
                            ;
                            return None;
                        },
                    }
                } else {
                    bank
                };
                match bank.checked_mul(0x400) {
                    Some(base) => base.checked_add(a % 0x400),
                    None => None,
                }
            },
            None => match w.bank.checked_mul(size) {
                Some(base) => base.checked_add(a),
                None => None,
            },
        }
    }

    /// Reads character memory.
    pub fn read_chr(&mut self, addr: u16) -> (r: u8)
        requires
            old(self).wf(),
        ensures
            (r, *final(self)) == old(self).reading_chr(addr),
            final(self).wf(),
    {
        proof {
            reveal(VideoMemory::reading_chr);
        }
        let rom_size: usize = self.chr.len();
        match self.addr_to_bank_and_offset(addr) {
            Some(i) => {
                if self.ram {
                    if i < 0x2000 {
                        return self.chr_ram[i];
                    }
                } else if i < rom_size {
                    return self.chr[i];
                }
            },
            None => {},
        }
        self.record_fault(addr);
        0
    }

    /// Writes character RAM.
    pub fn write_chr(&mut self, addr: u16, data: u8)
        requires
            old(self).wf(),
        ensures
            *final(self) == old(self).after_write_chr(addr, data),
            final(self).wf(),
    {
        proof {
            reveal(VideoMemory::after_write_chr);
        }
        match self.addr_to_bank_and_offset(addr) {
            Some(i) => {
                if i < 0x2000 {
                    self.chr_ram[i] = data;
                    return ;
                }
            },
            None => {},
        }
        self.record_fault(addr);
    }

    /// Folds a name-table address onto the pages of video memory.
    pub fn mirrored_address(&self, addr: u16) -> (r: u16)
        requires
            0x2000 <= addr <= 0x3EFF,
            self.mmc7_vram_page <= 1,
        ensures
            r == mirror_index(self.mirroring, self.mmc7_vram_page, addr),
    {
        let addr: u16 = if addr >= 0x3000 {
            addr - 0x1000
        } else {
            addr
        };
        match self.mirroring {
            Mirroring::Vertical => {
                let addr: u16 = if addr >= 0x2800 {
                    addr - 0x800
                } else {
                    addr
                };
                addr - 0x2000
            },
            Mirroring::Horizontal => {
                let addr: u16 = if addr >= 0x2C00 {
                    addr - 0x800
                } else if addr >= 0x2400 {
                    addr - 0x400
                } else {
                    addr
                };
                addr - 0x2000
            },
            Mirroring::OneScreenLowerBank => {
                let addr: u16 = if addr >= 0x2C00 {
                    addr - 0xC00
                } else if addr >= 0x2800 {
                    addr - 0x800
                } else if addr >= 0x2400 {
                    addr - 0x400
                } else {
                    addr
                };
                addr - 0x2000
            },
            Mirroring::OneScreenUpperBank => {
                let addr: u16 = if addr >= 0x2C00 {
                    addr - 0x800
                } else if addr >= 0x2800 {
                    addr - 0x400
                } else if addr >= 0x2400 {
                    addr
                } else {
                    addr + 0x400
                };
                addr - 0x2000
            },
            Mirroring::FourScreen => addr - 0x2000,
            Mirroring::SingleScreen => {
                let addr: u16 = if addr >= 0x2C00 {
                    addr - 0xC00
                } else if addr >= 0x2800 {
                    addr - 0x800
                } else if addr >= 0x2400 {
                    addr - 0x400
                } else {
                    addr
                };
                addr - 0x2000 + (self.mmc7_vram_page as u16 * 0x400)
            },
        }
    }

    /// Computes `palette_slot`.
    pub fn palette_index(addr: u16) -> (r: usize)
        ensures
            r == palette_slot(addr),
            r < 0x20,
    {
        let a: usize = (addr % 0x20) as usize;
        if a == 0x10 || a == 0x14 || a == 0x18 || a == 0x1C {
            a - 0x10
        } else {
            a
        }
    }

    /// Reads character or name-table memory, or a raw palette entry.
    pub fn read_plain(&mut self, addr: u16) -> (r: u8)
        requires
            old(self).wf(),
            addr < 0x4000,
        ensures
            (r, *final(self)) == old(self).reading_plain(addr),
            final(self).wf(),
    {
        proof {
            reveal(VideoMemory::reading_plain);
        }
        proof {
            reveal(VideoMemory::reading_nametable);
        }
        if addr < 0x2000 {
            self.read_chr(addr)
        } else if addr < 0x3F00 {
            let i: usize = self.mirrored_address(addr) as usize;
            if i < 0x800 {
                self.vram[i]
            } else {
                self.record_fault(addr);
                0
            }
        } else {
            self.pram[Self::palette_index(addr)]
        }
    }

    /// Writes the picture bus.
    pub fn write(&mut self, addr: u16, data: u8)
        requires
            old(self).wf(),
        ensures
            *final(self) == old(self).after_write(addr, data),
            final(self).wf(),
    {
        proof {
            reveal(VideoMemory::after_write);
        }
        let addr: u16 = addr % 0x4000;
        if addr < 0x2000 {
            if self.ram {
                self.write_chr(addr, data);
            }
        } else if addr < 0x3F00 {
            self.write_nametable(addr, data);
        } else {
            self.write_palette(addr, data);
        }
    }

    /// Writes a palette entry.
    pub fn write_palette(&mut self, addr: u16, data: u8)
        requires
            old(self).wf(),
        ensures
            *final(self) == old(self).after_write_palette(addr, data),
            final(self).wf(),
    {
        proof {
            reveal(VideoMemory::after_write_palette);
        }
        let i: usize = Self::palette_index(addr);
        self.pram[i] = data;
    }

    /// Writes the name tables.
    pub fn write_nametable(&mut self, addr: u16, data: u8)
        requires
            old(self).wf(),
            0x2000 <= addr <= 0x3EFF,
        ensures
            *final(self) == old(self).after_write_nametable(addr, data),
            final(self).wf(),
    {
        proof {
            reveal(VideoMemory::after_write_nametable);
        }
        let i: usize = self.mirrored_address(addr) as usize;
        if i < 0x800 {
            self.vram[i] = data;
        } else {
            self.record_fault(addr);
        }
    }
}

/// A write to one of the palette addresses 0x3F10, 0x3F14, 0x3F18, 0x3F1C is
/// read back at 0x3F00, 0x3F04, 0x3F08, 0x3F0C, and the other way round: both
/// addresses of a pair hold the value written through either.
pub proof fn lemma_palette_entries_mirror(p: VideoMemory, k: int, data: u8)
    requires
        0 <= k < 4,
    ensures
        ({
            let low = (0x3F00 + 4 * k) as u16;
            let high = (0x3F10 + 4 * k) as u16;
            &&& p.after_write(high, data).reading_plain(low).0 == data
            &&& p.after_write(low, data).reading_plain(high).0 == data
            &&& p.after_write(high, data).reading_plain(high).0 == data
            &&& p.after_write(low, data).reading_plain(low).0 == data
        }),
{
    reveal(VideoMemory::after_write_palette);
    reveal(VideoMemory::after_write);
    reveal(VideoMemory::reading_plain);
    let low = (0x3F00 + 4 * k) as u16;
    let high = (0x3F10 + 4 * k) as u16;
    assert(palette_slot(low) == 4 * k);
    assert(palette_slot(high) == 4 * k);
    assert(p.after_write(high, data).pram[4 * k] == data);
    assert(p.after_write(low, data).pram[4 * k] == data);
}

/// A palette write changes no palette entry but the one addressed.
pub proof fn lemma_palette_write_is_local(p: VideoMemory, addr: u16, data: u8, other: u16)
    requires
        0x3F00 <= addr % 0x4000,
        palette_slot((other % 0x4000) as u16) != palette_slot((addr % 0x4000) as u16),
    ensures
        p.after_write(addr, data).pram[palette_slot((other % 0x4000) as u16)] == p.pram[palette_slot(
            (other % 0x4000) as u16,
        )],
{
    reveal(VideoMemory::after_write_palette);
    reveal(VideoMemory::after_write);
}

} // verus!
