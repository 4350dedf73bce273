//! The cartridge with eight bank registers and a scanline interrupt.

use vstd::prelude::*;
use crate::bus::mapper::{banked_byte, read_banked, BankSettings, Window};
use crate::bus::Bus;
use crate::cartridge::{Cartridge, MapperType, Mirroring};
use crate::ppu::memory::VideoMemory;
use crate::ppu::mmc3::{Irq, Mmc3};
use crate::ppu::Ppu;
use crate::util::bit::{bit8, bit_at, bits_abs8};
use crate::util::Config;

verus! {

/// Which of the program windows at 0x8000 and 0xC000 is switched.
#[derive(Clone, Copy, Debug, PartialEq, Eq, Structural)]
pub enum PrgRomMode {
    SwappableFixed,
    FixedSwappable,
}

/// Whether the two 2 KiB character windows come before the four 1 KiB ones.
#[derive(Clone, Copy, Debug, PartialEq, Eq, Structural)]
pub enum ChrRomMode {
    TwoFour,
    FourTwo,
}

/// A cartridge with bank registers and a scanline interrupt.
#[derive(Clone)]
pub struct Mapper4 {
    pub bank_settings: BankSettings,
    /// Program banks by slot; slots 6 and 7 are the switched registers,
    /// slots 8 and 9 the last two banks of the ROM.
    pub banks: [usize; 10],
    pub bus: Bus,
    pub chr_rom_mode: ChrRomMode,
    pub filename: String,
    pub num_banks: usize,
    pub prg_rom: Vec<u8>,
    pub prg_rom_mode: PrgRomMode,
    pub ram_enabled: bool,
    pub ram_protected: bool,
    pub selected_bank_register: usize,
    pub sram: [u8; 0x2000],
}

/// The program routing table of a mode; windows name bank slots.
pub open spec fn prg_table(mode: PrgRomMode) -> BankSettings {
    match mode {
        PrgRomMode::FixedSwappable => BankSettings::of(
            seq![
                Window { bank: 8, start: 0x8000, end: 0xA000 },
                Window { bank: 7, start: 0xA000, end: 0xC000 },
                Window { bank: 6, start: 0xC000, end: 0xE000 },
                Window { bank: 9, start: 0xE000, end: 0x10000 },
            ],
        ),
        PrgRomMode::SwappableFixed => BankSettings::of(
            seq![
                Window { bank: 6, start: 0x8000, end: 0xA000 },
                Window { bank: 7, start: 0xA000, end: 0xC000 },
                Window { bank: 8, start: 0xC000, end: 0xE000 },
                Window { bank: 9, start: 0xE000, end: 0x10000 },
            ],
        ),
    }
}

/// The character routing table of a mode; windows name bank registers.
pub open spec fn chr_table(mode: ChrRomMode) -> BankSettings {
    match mode {
        ChrRomMode::FourTwo => BankSettings::of(
            seq![
                Window { bank: 2, start: 0x0000, end: 0x0400 },
                Window { bank: 3, start: 0x0400, end: 0x0800 },
                Window { bank: 4, start: 0x0800, end: 0x0C00 },
                Window { bank: 5, start: 0x0C00, end: 0x1000 },
                Window { bank: 0, start: 0x1000, end: 0x1800 },
                Window { bank: 1, start: 0x1800, end: 0x2000 },
            ],
        ),
        ChrRomMode::TwoFour => BankSettings::of(
            seq![
                Window { bank: 0, start: 0x0000, end: 0x0800 },
                Window { bank: 1, start: 0x0800, end: 0x1000 },
                Window { bank: 2, start: 0x1000, end: 0x1400 },
                Window { bank: 3, start: 0x1400, end: 0x1800 },
                Window { bank: 4, start: 0x1800, end: 0x1C00 },
                Window { bank: 5, start: 0x1C00, end: 0x2000 },
            ],
        ),
    }
}

impl Mapper4 {
    /// The bus and the routing table are well formed.
    pub open spec fn wf(self) -> bool {
        self.bus.wf() && self.bank_settings.wf()
    }

    /// A mapper half with all registers zero.
    pub open spec fn blank_mmc3() -> Mmc3 {
        Mmc3 {
            banks: vstd::array::spec_array_fill_for_copy_type::<usize, 6>(0usize),
            irq: Irq {
                counter: 0,
                enabled: false,
                occurred: false,
                reload: 0,
                old_counter: 0,
                filter: 0,
            },
            selected_bank_register: 0,
        }
    }

    /// The mapper's half on the picture bus; zero registers if the picture
    /// unit carries none.
    pub open spec fn mmc3(self) -> Mmc3 {
        match self.bus.ppu.mem.mmc3 {
            Some(m) => m,
            None => Self::blank_mmc3(),
        }
    }

    /// The cartridge with the mapper's half on the picture bus replaced.
    pub open spec fn with_mmc3(self, m: Mmc3) -> Mapper4 {
        Mapper4 {
            bus: Bus {
                ppu: Ppu {
                    mem: VideoMemory { mmc3: Some(m), ..self.bus.ppu.mem },
                    ..self.bus.ppu
                },
                ..self.bus
            },
            ..self
        }
    }

    /// The cartridge after `data` was written to the bank-select register:
    /// bits 0-2 select a bank register, bit 6 the program mode, bit 7 the
    /// character mode.
    #[verifier::opaque]
    pub open spec fn after_bank_select(self, data: u8) -> Mapper4 {
        let prg_mode = if bit_at(data as int, 6) {
            PrgRomMode::FixedSwappable
        } else {
            PrgRomMode::SwappableFixed
        };
        let chr_mode = if bit_at(data as int, 7) {
            ChrRomMode::FourTwo
        } else {
            ChrRomMode::TwoFour
        };
        let m = self.mmc3();
        Mapper4 {
            prg_rom_mode: prg_mode,
            bank_settings: prg_table(prg_mode),
            chr_rom_mode: chr_mode,
            bus: Bus {
                ppu: Ppu {
                    mem: VideoMemory {
                        mmc3: Some(Mmc3 { selected_bank_register: (data % 8) as usize, ..m }),
                        bank_settings: chr_table(chr_mode),
                        ..self.bus.ppu.mem
                    },
                    ..self.bus.ppu
                },
                ..self.bus
            },
            ..self
        }
    }

    /// The cartridge after `data` was written to the selected bank
    /// register: registers 0 and 1 hold 2 KiB character banks and ignore
    /// bit 0, registers 2 to 5 hold 1 KiB character banks, registers 6 and
    /// 7 hold 8 KiB program banks of six bits.  With no register selected
    /// nothing is written.
    #[verifier::opaque]
    pub open spec fn after_bank_data(self, data: u8) -> Mapper4 {
        let m = self.mmc3();
        let sel = m.selected_bank_register as int;
        if sel > 7 {
            self
        } else if sel == 6 || sel == 7 {
            Mapper4 {
                banks: vstd::array::spec_array_update(self.banks, sel, (data % 64) as usize),
                ..self
            }
        } else {
            self.with_mmc3(
                Mmc3 {
                    banks: vstd::array::spec_array_update(
                        m.banks,
                        sel,
                        if sel <= 1 {
                            (data - data % 2) as usize
                        } else {
                            data as usize
                        },
                    ),
                    ..m
                },
            )
        }
    }

    /// The cartridge after `data` was written to the mirroring register;
    /// a four-screen cartridge keeps its arrangement.
    #[verifier::opaque]
    pub open spec fn after_mirroring(self, data: u8) -> Mapper4 {
        Mapper4 {
            bus: Bus {
                ppu: Ppu {
                    mem: VideoMemory {
                        mirroring: if self.bus.ppu.mem.mirroring == Mirroring::FourScreen {
                            Mirroring::FourScreen
                        } else if bit_at(data as int, 0) {
                            Mirroring::Horizontal
                        } else {
                            Mirroring::Vertical
                        },
                        ..self.bus.ppu.mem
                    },
                    ..self.bus.ppu
                },
                ..self.bus
            },
            ..self
        }
    }

    /// The interrupt counter after a write to one of its four registers:
    /// 0xC000 even sets the latch, odd zeroes the counter so that the next
    /// clock reloads it; 0xE000 even disables and acknowledges, odd enables.
    pub open spec fn irq_after_write(irq: Irq, addr: u16, data: u8) -> Irq {
        if addr < 0xE000 {
            if addr % 2 == 0 {
                Irq { reload: data, ..irq }
            } else {
                Irq { counter: 0, ..irq }
            }
        } else if addr % 2 == 0 {
            Irq { occurred: false, enabled: false, ..irq }
        } else {
            Irq { enabled: true, ..irq }
        }
    }

    /// The cartridge after `data` was written to the register at `addr` of
    /// 0x8000-0xFFFF.
    #[verifier::opaque]
    pub open spec fn after_register_write(self, addr: u16, data: u8) -> Mapper4 {
        if addr < 0xA000 {
            if addr % 2 == 0 {
                self.after_bank_select(data)
            } else {
                self.after_bank_data(data)
            }
        } else if addr < 0xC000 {
            if addr % 2 == 0 {
                self.after_mirroring(data)
            } else {
                Mapper4 {
                    ram_enabled: bit_at(data as int, 7),
                    ram_protected: bit_at(data as int, 6),
                    ..self
                }
            }
        } else {
            let m = self.mmc3();
            self.with_mmc3(Mmc3 { irq: Self::irq_after_write(m.irq, addr, data), ..m })
        }
    }

    /// The program byte at `addr` of 0x8000-0xFFFF, if the routing table,
    /// the bank slots and the ROM hold it.
    pub open spec fn prg_byte(self, addr: u16) -> Option<u8> {
        match self.bank_settings.window_of(addr as i32) {
            Some(w) => if w.bank < 10 {
                banked_byte(
                    self.prg_rom@,
                    self.banks[w.bank as int] as int,
                    w.end - w.start,
                    addr as int % 0x2000,
                )
            } else {
                None
            },
            None => None,
        }
    }

    /// What a read at `addr` returns and leaves behind.
    #[verifier::opaque]
    pub open spec fn reading(self, addr: u16) -> (u8, Mapper4) {
        if addr >= 0x8000 {
            match self.prg_byte(addr) {
                Some(b) => (b, self),
                None => (0, Mapper4 { bus: self.bus.with_fault(addr), ..self }),
            }
        } else if addr >= 0x6000 {
            (
                if self.ram_enabled {
                    self.sram[addr - 0x6000]
                } else {
                    0
                },
                self,
            )
        } else {
            let f = self.bus.reading(addr);
            (f.0, Mapper4 { bus: f.1, ..self })
        }
    }

    /// The cartridge after `data` was written at `addr`; the work RAM at
    /// 0x6000-0x7FFF takes writes while enabled and not protected.
    #[verifier::opaque]
    pub open spec fn after_write(self, addr: u16, data: u8) -> Mapper4 {
        if addr >= 0x8000 {
            self.after_register_write(addr, data)
        } else if addr >= 0x6000 {
            if self.ram_enabled && !self.ram_protected {
                Mapper4 {
                    sram: vstd::array::spec_array_update(self.sram, addr - 0x6000, data),
                    ..self
                }
            } else {
                self
            }
        } else {
            Mapper4 { bus: self.bus.after_write(addr, data), ..self }
        }
    }

    /// The cartridge at power-up: all registers zero, the last two banks
    /// in slots 8 and 9, work RAM filled with `sram`.
    pub fn new(cartridge: Cartridge, config: &Config, sram: [u8; 0x2000], clockrate: u32) -> (m:
        Mapper4)
        requires
            cartridge.chr_rom is Some,
            cartridge.prg_rom matches Some(prg) && prg@.len() >= 0x4000,
        ensures
            m.wf(),
            m.ram_enabled,
            !m.ram_protected,
            m.sram == sram,
            m.prg_rom == cartridge.prg_rom->0,
            m.num_banks == cartridge.prg_rom->0@.len() / 0x2000,
            m.prg_rom_mode == PrgRomMode::SwappableFixed,
            m.chr_rom_mode == ChrRomMode::TwoFour,
            m.selected_bank_register == 0,
            m.banks@ == seq![
                0usize,
                0usize,
                0usize,
                0usize,
                0usize,
                0usize,
                0usize,
                0usize,
                (m.num_banks - 2) as usize,
                (m.num_banks - 1) as usize,
            ],
            m.bank_settings == BankSettings::of(
                seq![
                    Window { bank: 0, start: 0x8000, end: 0xA000 },
                    Window { bank: 0, start: 0xA000, end: 0xC000 },
                    Window { bank: 0, start: 0xC000, end: 0xE000 },
                    Window { bank: 9, start: 0xE000, end: 0x10000 },
                ],
            ),
            m.bus.is_initial(
                Seq::empty(),
                cartridge.chr_rom->0,
                cartridge,
                MapperType::MMC3,
                clockrate,
            ),
    {
        let Cartridge { chr_rom, mapper_type, mirroring, prg_rom } = cartridge;
        let prg_rom: Vec<u8> = prg_rom.unwrap();
        let num_banks: usize = prg_rom.len() / 0x2000;
        Mapper4 {
            prg_rom,
            bus: Bus::new(
                Cartridge { chr_rom, mapper_type, mirroring, prg_rom: None },
                MapperType::MMC3,
                clockrate,
            ),
            prg_rom_mode: PrgRomMode::SwappableFixed,
            banks: [0, 0, 0, 0, 0, 0, 0, 0, num_banks - 2, num_banks - 1],
            bank_settings: BankSettings::quad(
                Window { bank: 0, start: 0x8000, end: 0xA000 },
                Window { bank: 0, start: 0xA000, end: 0xC000 },
                Window { bank: 0, start: 0xC000, end: 0xE000 },
                Window { bank: 9, start: 0xE000, end: 0x10000 },
            ),
            chr_rom_mode: ChrRomMode::TwoFour,
            sram,
            selected_bank_register: 0,
            ram_enabled: true,
            ram_protected: false,
            filename: config.filename.clone(),
            num_banks,
        }
    }

    /// Reads the program ROM through the routing table and the bank slots.
    pub fn read_prg(&self, addr: u16) -> (r: Option<u8>)
        requires
            self.wf(),
        ensures
            r == self.prg_byte(addr),
    {
        match self.bank_settings.lookup(addr as i32) {
            Some(w) => {
                if w.bank >= 10 {
                    return None;
                }
                let bank_size: usize = (w.end as i64 - w.start as i64) as usize;
                let offset: usize = addr as usize % 0x2000;
                let bank: usize = self.banks[w.bank];
                read_banked(&self.prg_rom, bank, bank_size, offset)
            },
            None => None,
        }
    }

    /// Builds the program routing table of a mode.
    fn make_prg_table(mode: PrgRomMode) -> (t: BankSettings)
        ensures
            t == prg_table(mode),
            t.wf(),
    {
        match mode {
            PrgRomMode::FixedSwappable => BankSettings::quad(
                Window { bank: 8, start: 0x8000, end: 0xA000 },
                Window { bank: 7, start: 0xA000, end: 0xC000 },
                Window { bank: 6, start: 0xC000, end: 0xE000 },
                Window { bank: 9, start: 0xE000, end: 0x10000 },
            ),
            PrgRomMode::SwappableFixed => BankSettings::quad(
                Window { bank: 6, start: 0x8000, end: 0xA000 },
                Window { bank: 7, start: 0xA000, end: 0xC000 },
                Window { bank: 8, start: 0xC000, end: 0xE000 },
                Window { bank: 9, start: 0xE000, end: 0x10000 },
            ),
        }
    }

    /// Builds the character routing table of a mode.
    fn make_chr_table(mode: ChrRomMode) -> (t: BankSettings)
        ensures
            t == chr_table(mode),
            t.wf(),
    {
        match mode {
            ChrRomMode::FourTwo => BankSettings::six(
                Window { bank: 2, start: 0x0000, end: 0x0400 },
                Window { bank: 3, start: 0x0400, end: 0x0800 },
                Window { bank: 4, start: 0x0800, end: 0x0C00 },
                Window { bank: 5, start: 0x0C00, end: 0x1000 },
                Window { bank: 0, start: 0x1000, end: 0x1800 },
                Window { bank: 1, start: 0x1800, end: 0x2000 },
            ),
            ChrRomMode::TwoFour => BankSettings::six(
                Window { bank: 0, start: 0x0000, end: 0x0800 },
                Window { bank: 1, start: 0x0800, end: 0x1000 },
                Window { bank: 2, start: 0x1000, end: 0x1400 },
                Window { bank: 3, start: 0x1400, end: 0x1800 },
                Window { bank: 4, start: 0x1800, end: 0x1C00 },
                Window { bank: 5, start: 0x1C00, end: 0x2000 },
            ),
        }
    }

    /// Writes the bank-select register.
    fn write_bank_select(&mut self, data: u8, mmc3: Mmc3)
        requires
            old(self).wf(),
            old(self).mmc3() == mmc3,
        ensures
            *final(self) == old(self).after_bank_select(data),
            final(self).wf(),
    {
        proof {
            reveal(Bus::wf);
        }
        proof {
            reveal(Mapper4::after_bank_select);
        }
        let bank_register: u8 = bits_abs8(data, 0, 2);
        let prg_mode = if bit8(data, 6) {
            PrgRomMode::FixedSwappable
        } else {
            PrgRomMode::SwappableFixed
        };
        let chr_mode = if bit8(data, 7) {
            ChrRomMode::FourTwo
        } else {
            ChrRomMode::TwoFour
        };
        let prg = Self::make_prg_table(prg_mode);
        let chr = Self::make_chr_table(chr_mode);
        let mut m: Mmc3 = mmc3;
        m.selected_bank_register = bank_register as usize;
        self.prg_rom_mode = prg_mode;
        self.bank_settings = prg;
        self.chr_rom_mode = chr_mode;
        self.bus.ppu.mem.mmc3 = Some(m);
        self.bus.ppu.mem.bank_settings = chr;
    }

    /// Writes the selected bank register.
    fn write_bank_data(&mut self, data: u8, mmc3: Mmc3)
        requires
            old(self).wf(),
            old(self).mmc3() == mmc3,
        ensures
            *final(self) == old(self).after_bank_data(data),
            final(self).wf(),
    {
        proof {
            reveal(Bus::wf);
        }
        proof {
            reveal(Mapper4::after_bank_data);
        }
        let sel: usize = mmc3.selected_bank_register;
        if sel > 7 {
        } else if sel == 6 || sel == 7 {
            self.banks[sel] = bits_abs8(data, 0, 5) as usize;
        } else {
            let value: usize = if sel <= 1 {
                bits_abs8(data, 1, 7) as usize
            } else {
                data as usize
            };
            let mut m: Mmc3 = mmc3;
            m.banks[sel] = value;
            self.bus.ppu.mem.mmc3 = Some(m);
        }
    }

    /// Writes the mirroring register.
    fn write_mirroring(&mut self, data: u8)
        requires
            old(self).wf(),
        ensures
            *final(self) == old(self).after_mirroring(data),
            final(self).wf(),
    {
        proof {
            reveal(Bus::wf);
        }
        proof {
            reveal(Mapper4::after_mirroring);
        }
        let mirroring = if self.bus.ppu.mem.mirroring == Mirroring::FourScreen {
            Mirroring::FourScreen
        } else if bit8(data, 0) {
            Mirroring::Horizontal
        } else {
            Mirroring::Vertical
        };
        self.bus.ppu.mem.mirroring = mirroring;
    }

    /// Computes `irq_after_write`.
    fn write_irq(irq: Irq, addr: u16, data: u8) -> (r: Irq)
        ensures
            r == Self::irq_after_write(irq, addr, data),
    {
        let mut r: Irq = irq;
        if addr < 0xE000 {
            if addr % 2 == 0 {
                r.reload = data;
            } else {
                r.counter = 0;
            }
        } else if addr % 2 == 0 {
            r.occurred = false;
            r.enabled = false;
        } else {
            r.enabled = true;
        }
        r
    }

    /// The mapper's half on the picture bus.
    pub fn mapper_half(&self) -> (m: Mmc3)
        ensures
            m == self.mmc3(),
    {
        match self.bus.ppu.mem.mmc3 {
            Some(m) => m,
            None => {
                let m = Mmc3::new();
                assert(m.banks =~= Self::blank_mmc3().banks);
                m
            },
        }
    }

    /// Writes the register at `addr`.
    pub fn write_register(&mut self, addr: u16, data: u8)
        requires
            old(self).wf(),
            addr >= 0x8000,
        ensures
            *final(self) == old(self).after_register_write(addr, data),
            final(self).wf(),
    {
        proof {
            reveal(Bus::wf);
        }
        proof {
            reveal(Mapper4::after_register_write);
        }
        let mmc3: Mmc3 = self.mapper_half();
        if addr < 0xA000 {
            if addr % 2 == 0 {
                self.write_bank_select(data, mmc3);
            } else {
                self.write_bank_data(data, mmc3);
            }
        } else if addr < 0xC000 {
            if addr % 2 == 0 {
                self.write_mirroring(data);
            } else {
                self.ram_enabled = bit8(data, 7);
                self.ram_protected = bit8(data, 6);
            }
        } else {
            let irq: Irq = Self::write_irq(mmc3.irq, addr, data);
            let mut m: Mmc3 = mmc3;
            m.irq = irq;
            self.bus.ppu.mem.mmc3 = Some(m);
        }
    }

    /// Reads a byte.
    pub fn read_u8(&mut self, addr: u16) -> (r: u8)
        requires
            old(self).wf(),
        ensures
            (r, *final(self)) == old(self).reading(addr),
            final(self).wf(),
    {
        proof {
            reveal(Mapper4::reading);
        }
        if addr >= 0x8000 {
            match self.read_prg(addr) {
                Some(b) => b,
                None => {
                    self.bus.record_fault(addr);
                    0
                },
            }
        } else if addr >= 0x6000 {
            if self.ram_enabled {
                self.sram[(addr - 0x6000) as usize]
            } else {
                0
            }
        } else {
            self.bus.read_u8(addr)
        }
    }

    /// Writes a byte.
    pub fn write_u8(&mut self, addr: u16, data: u8)
        requires
            old(self).wf(),
        ensures
            *final(self) == old(self).after_write(addr, data),
            final(self).wf(),
    {
        proof {
            reveal(Mapper4::after_write);
        }
        if addr >= 0x8000 {
            self.write_register(addr, data);
        } else if addr >= 0x6000 {
            if self.ram_enabled && !self.ram_protected {
                self.sram[(addr - 0x6000) as usize] = data;
            }
        } else {
            self.bus.write_u8(addr, data);
        }
    }

    /// The work RAM, to be kept in the save file.
    pub fn save_data(&self) -> (data: [u8; 0x2000])
        ensures
            data == self.sram,
    {
        self.sram
    }
}

} // verus!
