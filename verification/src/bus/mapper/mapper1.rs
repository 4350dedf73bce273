//! The cartridge with the serial port: five writes of one bit each load one
//! of four registers that arrange program and character banks.

use vstd::prelude::*;
use crate::bus::mapper::{banked_byte, read_banked, BankSettings, Window};
use crate::bus::Bus;
use crate::cartridge::{Cartridge, MapperType, Mirroring};
use crate::ppu::memory::VideoMemory;
use crate::ppu::Ppu;
use crate::util::bit::{bit8, bit_at, bits8, bits_abs8};
use crate::util::shift_reg::ShiftRegister;
use crate::util::{bool_bit, flag_bit, Config};

verus! {

/// How the 32 KiB of program address space are filled.
#[derive(Clone, Copy, Debug, PartialEq, Eq, Structural)]
pub enum PrgRomMode {
    Switch32kB,
    FixFirstBank,
    FixLastBank,
}

/// How the 8 KiB of character address space are filled.
#[derive(Clone, Copy, Debug, PartialEq, Eq, Structural)]
pub enum ChrRomMode {
    Switch8kB,
    SwitchTwo4kB,
}

/// A cartridge with the serial port.
#[derive(Clone)]
pub struct Mapper1 {
    pub bank_settings: BankSettings,
    pub bus: Bus,
    pub chr_rom_mode: ChrRomMode,
    pub cur_bank: usize,
    pub filename: String,
    pub num_banks: usize,
    pub prg_rom: Vec<u8>,
    pub prg_rom_mode: PrgRomMode,
    pub ram_enabled: bool,
    pub shift_reg: ShiftRegister<u8, 5>,
    pub sram: [u8; 0x2000],
    pub writes: usize,
}

/// The name-table arrangement for the low two bits of the control register.
pub open spec fn mirroring_for(bits: int) -> Mirroring {
    if bits == 0 {
        Mirroring::OneScreenLowerBank
    } else if bits == 1 {
        Mirroring::OneScreenUpperBank
    } else if bits == 2 {
        Mirroring::Vertical
    } else {
        Mirroring::Horizontal
    }
}

/// The program mode for bits 2 and 3 of the control register.
pub open spec fn prg_mode_for(bits: int) -> PrgRomMode {
    if bits == 2 {
        PrgRomMode::FixFirstBank
    } else if bits == 3 {
        PrgRomMode::FixLastBank
    } else {
        PrgRomMode::Switch32kB
    }
}

/// The program routing table of a mode, with `cur` the selected bank and
/// `last` the last bank of the ROM.
pub open spec fn prg_table(mode: PrgRomMode, cur: usize, last: usize) -> BankSettings {
    match mode {
        PrgRomMode::Switch32kB => BankSettings::of(
            seq![Window { bank: cur, start: 0x8000, end: 0x10000 }],
        ),
        PrgRomMode::FixFirstBank => BankSettings::of(
            seq![
                Window { bank: 0, start: 0x8000, end: 0xC000 },
                Window { bank: cur, start: 0xC000, end: 0x10000 },
            ],
        ),
        PrgRomMode::FixLastBank => BankSettings::of(
            seq![
                Window { bank: cur, start: 0x8000, end: 0xC000 },
                Window { bank: last, start: 0xC000, end: 0x10000 },
            ],
        ),
    }
}

/// The character routing table a mode starts with.
pub open spec fn chr_table(mode: ChrRomMode) -> BankSettings {
    match mode {
        ChrRomMode::SwitchTwo4kB => BankSettings::of(
            seq![
                Window { bank: 0, start: 0, end: 0x1000 },
                Window { bank: 1, start: 0x1000, end: 0x2000 },
            ],
        ),
        ChrRomMode::Switch8kB => BankSettings::of(seq![Window { bank: 0, start: 0, end: 0x2000 }]),
    }
}

impl Mapper1 {
    /// The bus and the routing table are well formed, the ROM has a last
    /// bank, and at most four bits wait in the shift register.
    pub open spec fn wf(self) -> bool {
        &&& self.bus.wf()
        &&& self.bank_settings.wf()
        &&& self.num_banks >= 1
        &&& self.writes <= 4
    }

    /// The cartridge with the character routing table replaced.
    pub open spec fn with_chr_table(self, table: BankSettings) -> Mapper1 {
        Mapper1 {
            bus: Bus {
                ppu: Ppu {
                    mem: VideoMemory { bank_settings: table, ..self.bus.ppu.mem },
                    ..self.bus.ppu
                },
                ..self.bus
            },
            ..self
        }
    }

    /// The cartridge after `value` was loaded into the control register:
    /// bits 0-1 give the name-table arrangement, bits 2-3 the program
    /// mode, bit 4 the character mode; both routing tables start afresh.
    #[verifier::opaque]
    pub open spec fn after_control(self, value: u8) -> Mapper1 {
        let prg_mode = prg_mode_for((value as int / 4) % 4);
        let chr_mode = if bit_at(value as int, 4) {
            ChrRomMode::SwitchTwo4kB
        } else {
            ChrRomMode::Switch8kB
        };
        let s = Mapper1 {
            prg_rom_mode: prg_mode,
            bank_settings: prg_table(prg_mode, self.cur_bank, (self.num_banks - 1) as usize),
            chr_rom_mode: chr_mode,
            ..self
        };
        Mapper1 {
            bus: Bus {
                ppu: Ppu {
                    mem: VideoMemory {
                        mirroring: mirroring_for(value as int % 4),
                        bank_settings: chr_table(chr_mode),
                        ..self.bus.ppu.mem
                    },
                    ..self.bus.ppu
                },
                ..self.bus
            },
            ..s
        }
    }

    /// The cartridge after `value` was loaded into the first character
    /// register: the bank of the window at 0x0000, all five bits in the
    /// 4 KiB mode, bits 1-4 in the 8 KiB mode; a clear bit 4 also enables
    /// the work RAM.
    #[verifier::opaque]
    pub open spec fn after_chr0(self, value: u8) -> Mapper1 {
        let bank = if self.chr_rom_mode == ChrRomMode::SwitchTwo4kB {
            (value % 32) as usize
        } else {
            (((value / 2) % 16) * 2) as usize
        };
        (Mapper1 {
            ram_enabled: self.ram_enabled || !bit_at(value as int, 4),
            ..self
        }).with_chr_table(self.bus.ppu.mem.bank_settings.after_set_bank(bank, 0))
    }

    /// The cartridge after `value` was loaded into the second character
    /// register: the bank of the window at 0x1000, in the 4 KiB mode only.
    #[verifier::opaque]
    pub open spec fn after_chr1(self, value: u8) -> Mapper1 {
        if self.chr_rom_mode == ChrRomMode::SwitchTwo4kB {
            self.with_chr_table(
                self.bus.ppu.mem.bank_settings.after_set_bank((value % 32) as usize, 0x1000),
            )
        } else {
            self
        }
    }

    /// The program bank a register value selects in a mode.
    pub open spec fn selected_bank(mode: PrgRomMode, value: u8) -> usize {
        if mode == PrgRomMode::Switch32kB {
            ((value / 2) % 8) as usize
        } else {
            (value % 16) as usize
        }
    }

    /// The start of the window that the program register switches in a mode.
    pub open spec fn switched_window(mode: PrgRomMode) -> i32 {
        if mode == PrgRomMode::FixFirstBank {
            0xC000
        } else {
            0x8000
        }
    }

    /// The cartridge after `value` was loaded into the program register:
    /// the selected bank goes to the switched window, and bit 4 disables
    /// the work RAM.
    #[verifier::opaque]
    pub open spec fn after_prg(self, value: u8) -> Mapper1 {
        let bank = Self::selected_bank(self.prg_rom_mode, value);
        Mapper1 {
            ram_enabled: !bit_at(value as int, 4),
            cur_bank: bank,
            bank_settings: self.bank_settings.after_set_bank(
                bank,
                Self::switched_window(self.prg_rom_mode),
            ),
            ..self
        }
    }

    /// The cartridge after `value` was loaded into the register that
    /// address bits 13 and 14 of `addr` select.
    pub open spec fn after_register_write(self, addr: u16, value: u8) -> Mapper1 {
        if addr < 0xA000 {
            self.after_control(value)
        } else if addr < 0xC000 {
            self.after_chr0(value)
        } else if addr < 0xE000 {
            self.after_chr1(value)
        } else {
            self.after_prg(value)
        }
    }

    /// The cartridge after a write of `data` to the serial port at `addr`.
    /// Bit 7 empties the shift register and fixes the last bank; otherwise
    /// bit 0 is shifted in, and the fifth bit loads a register.
    #[verifier::opaque]
    pub open spec fn after_serial(self, addr: u16, data: u8) -> Mapper1 {
        if bit_at(data as int, 7) {
            Mapper1 {
                prg_rom_mode: PrgRomMode::FixLastBank,
                bank_settings: prg_table(
                    PrgRomMode::FixLastBank,
                    self.cur_bank,
                    (self.num_banks - 1) as usize,
                ),
                shift_reg: ShiftRegister { data: 0 },
                writes: 0,
                ..self
            }
        } else {
            let shifted = self.shift_reg.after_push(bool_bit(bit_at(data as int, 0)));
            if self.writes < 4 {
                Mapper1 { shift_reg: shifted, writes: (self.writes + 1) as usize, ..self }
            } else {
                (Mapper1 {
                    shift_reg: ShiftRegister { data: 0 },
                    writes: 0,
                    ..self
                }).after_register_write(addr, shifted.data)
            }
        }
    }

    /// The program byte at `addr` of 0x8000-0xFFFF, if the routing table
    /// and the ROM hold it.
    pub open spec fn prg_byte(self, addr: u16) -> Option<u8> {
        match self.bank_settings.window_of(addr as i32) {
            Some(w) => banked_byte(
                self.prg_rom@,
                w.bank as int,
                w.end - w.start,
                if self.prg_rom_mode == PrgRomMode::Switch32kB {
                    addr as int % 0x8000
                } else {
                    addr as int % 0x4000
                },
            ),
            None => None,
        }
    }

    /// What a read at `addr` returns and leaves behind.  0x6000-0x7FFF is
    /// the work RAM, read as 0 while disabled; a program read that leaves
    /// the ROM returns 0 and records the fault.
    #[verifier::opaque]
    pub open spec fn reading(self, addr: u16) -> (u8, Mapper1) {
        if addr >= 0x8000 {
            match self.prg_byte(addr) {
                Some(b) => (b, self),
                None => (0, Mapper1 { bus: self.bus.with_fault(addr), ..self }),
            }
        } else if addr >= 0x6000 {
            (
                if self.ram_enabled {
                    self.sram[addr - 0x6000]
                } else {
                    0
                },
                self,
            )
        } else {
            let f = self.bus.reading(addr);
            (f.0, Mapper1 { bus: f.1, ..self })
        }
    }

    /// The cartridge after `data` was written at `addr`.
    #[verifier::opaque]
    pub open spec fn after_write(self, addr: u16, data: u8) -> Mapper1 {
        if addr >= 0x8000 {
            self.after_serial(addr, data)
        } else if addr >= 0x6000 {
            if self.ram_enabled {
                Mapper1 {
                    sram: vstd::array::spec_array_update(self.sram, addr - 0x6000, data),
                    ..self
                }
            } else {
                self
            }
        } else {
            Mapper1 { bus: self.bus.after_write(addr, data), ..self }
        }
    }

    /// The cartridge at power-up: last bank fixed, work RAM enabled and
    /// filled with `sram`, as loaded from the save file named after
    /// `config.filename`.
    pub fn new(cartridge: Cartridge, config: &Config, sram: [u8; 0x2000], clockrate: u32) -> (m:
        Mapper1)
        requires
            cartridge.chr_rom is Some,
            cartridge.prg_rom matches Some(prg) && prg@.len() >= 0x4000,
        ensures
            m.wf(),
            m.cur_bank == 0,
            m.writes == 0,
            m.shift_reg.data == 0,
            m.ram_enabled,
            m.sram == sram,
            m.prg_rom == cartridge.prg_rom->0,
            m.num_banks == cartridge.prg_rom->0@.len() / 0x4000,
            m.prg_rom_mode == PrgRomMode::FixLastBank,
            m.chr_rom_mode == ChrRomMode::Switch8kB,
            m.bank_settings == prg_table(PrgRomMode::FixLastBank, 0, (m.num_banks - 1) as usize),
            m.bus.is_initial(
                Seq::empty(),
                cartridge.chr_rom->0,
                cartridge,
                MapperType::MMC1,
                clockrate,
            ),
    {
        let Cartridge { chr_rom, mapper_type, mirroring, prg_rom } = cartridge;
        let prg_rom: Vec<u8> = prg_rom.unwrap();
        let num_banks: usize = prg_rom.len() / 0x4000;
        Mapper1 {
            bank_settings: BankSettings::pair(
                Window { bank: 0, start: 0x8000, end: 0xC000 },
                Window { bank: num_banks - 1, start: 0xC000, end: 0x10000 },
            ),
            bus: Bus::new(
                Cartridge { chr_rom, mapper_type, mirroring, prg_rom: None },
                MapperType::MMC1,
                clockrate,
            ),
            chr_rom_mode: ChrRomMode::Switch8kB,
            cur_bank: 0,
            sram,
            filename: config.filename.clone(),
            num_banks,
            prg_rom,
            prg_rom_mode: PrgRomMode::FixLastBank,
            ram_enabled: true,
            shift_reg: ShiftRegister::<u8, 5>::new(),
            writes: 0,
        }
    }

    /// Reads the program ROM through the routing table.
    pub fn read_prg(&self, addr: u16) -> (r: Option<u8>)
        requires
            self.wf(),
        ensures
            r == self.prg_byte(addr),
    {
        match self.bank_settings.lookup(addr as i32) {
            Some(w) => {
                let bank_size: usize = (w.end as i64 - w.start as i64) as usize;
                let offset: usize = if self.prg_rom_mode == PrgRomMode::Switch32kB {
                    addr as usize % 0x8000
                } else {
                    addr as usize % 0x4000
                };
                read_banked(&self.prg_rom, w.bank, bank_size, offset)
            },
            None => None,
        }
    }

    /// Builds the program routing table of a mode.
    fn make_prg_table(mode: PrgRomMode, cur: usize, last: usize) -> (t: BankSettings)
        ensures
            t == prg_table(mode, cur, last),
            t.wf(),
    {
        match mode {
            PrgRomMode::Switch32kB => BankSettings::single(
                Window { bank: cur, start: 0x8000, end: 0x10000 },
            ),
            PrgRomMode::FixFirstBank => BankSettings::pair(
                Window { bank: 0, start: 0x8000, end: 0xC000 },
                Window { bank: cur, start: 0xC000, end: 0x10000 },
            ),
            PrgRomMode::FixLastBank => BankSettings::pair(
                Window { bank: cur, start: 0x8000, end: 0xC000 },
                Window { bank: last, start: 0xC000, end: 0x10000 },
            ),
        }
    }

    /// Builds the character routing table of a mode.
    fn make_chr_table(mode: ChrRomMode) -> (t: BankSettings)
        ensures
            t == chr_table(mode),
            t.wf(),
    {
        match mode {
            ChrRomMode::SwitchTwo4kB => BankSettings::pair(
                Window { bank: 0, start: 0, end: 0x1000 },
                Window { bank: 1, start: 0x1000, end: 0x2000 },
            ),
            ChrRomMode::Switch8kB => BankSettings::single(
                Window { bank: 0, start: 0, end: 0x2000 },
            ),
        }
    }

    /// Decodes the name-table arrangement.
    fn decode_mirroring(bits: u8) -> (m: Mirroring)
        ensures
            m == mirroring_for(bits as int),
    {
        if bits == 0 {
            Mirroring::OneScreenLowerBank
        } else if bits == 1 {
            Mirroring::OneScreenUpperBank
        } else if bits == 2 {
            Mirroring::Vertical
        } else {
            Mirroring::Horizontal
        }
    }

    /// Decodes the program mode.
    fn decode_prg_mode(bits: u8) -> (m: PrgRomMode)
        ensures
            m == prg_mode_for(bits as int),
    {
        if bits == 2 {
            PrgRomMode::FixFirstBank
        } else if bits == 3 {
            PrgRomMode::FixLastBank
        } else {
            PrgRomMode::Switch32kB
        }
    }

    /// Installs the program routing table of a mode.
    fn set_prg_mode(&mut self, mode: PrgRomMode)
        requires
            old(self).wf(),
        ensures
            *final(self) == (Mapper1 {
                prg_rom_mode: mode,
                bank_settings: prg_table(
                    mode,
                    old(self).cur_bank,
                    (old(self).num_banks - 1) as usize,
                ),
                ..*old(self)
            }),
            final(self).wf(),
    {
        let table = Self::make_prg_table(mode, self.cur_bank, self.num_banks - 1);
        self.bank_settings.replace(table);
        self.prg_rom_mode = mode;
    }

    /// Loads the control register.
    fn write_control(&mut self, data: u8)
        requires
            old(self).wf(),
        ensures
            *final(self) == old(self).after_control(data),
            final(self).wf(),
    {
        proof {
            reveal(Bus::wf);
        }
        proof {
            reveal(Mapper1::after_control);
        }
        let mirroring = Self::decode_mirroring(bits_abs8(data, 0, 1));
        let prg_mode = Self::decode_prg_mode(bits8(data, 2, 3));
        let chr_mode = if bit8(data, 4) {
            ChrRomMode::SwitchTwo4kB
        } else {
            ChrRomMode::Switch8kB
        };
        let chr = Self::make_chr_table(chr_mode);
        self.set_prg_mode(prg_mode);
        self.chr_rom_mode = chr_mode;
        self.bus.ppu.mem.mirroring = mirroring;
        self.bus.ppu.mem.bank_settings = chr;
    }

    /// Loads the first character register.
    fn write_chr0(&mut self, data: u8)
        requires
            old(self).wf(),
        ensures
            *final(self) == old(self).after_chr0(data),
            final(self).wf(),
    {
        proof {
            reveal(Bus::wf);
        }
        proof {
            reveal(Mapper1::after_chr0);
        }
        let prg_ram_disable: bool = bit8(data, 4);
        let four: bool = self.chr_rom_mode == ChrRomMode::SwitchTwo4kB;
        let bank: usize = if four {
            bits_abs8(data, 0, 4) as usize
        } else {
            bits_abs8(data, 1, 4) as usize
        };
        let end: i32 = if four {
            0x1000
        } else {
            0x2000
        };
        self.ram_enabled = self.ram_enabled || !prg_ram_disable;
        self.bus.ppu.mem.bank_settings.set_bank(bank, 0x0000..end);
    }

    /// Loads the second character register.
    fn write_chr1(&mut self, data: u8)
        requires
            old(self).wf(),
        ensures
            *final(self) == old(self).after_chr1(data),
            final(self).wf(),
    {
        proof {
            reveal(Bus::wf);
        }
        proof {
            reveal(Mapper1::after_chr1);
        }
        if self.chr_rom_mode == ChrRomMode::SwitchTwo4kB {
            let bank: usize = bits_abs8(data, 0, 4) as usize;
            self.bus.ppu.mem.bank_settings.set_bank(bank, 0x1000..0x2000);
        }
    }

    /// Loads the program register.
    fn write_prg(&mut self, data: u8)
        requires
            old(self).wf(),
        ensures
            *final(self) == old(self).after_prg(data),
            final(self).wf(),
    {
        proof {
            reveal(Mapper1::after_prg);
        }
        let prg_ram_disable: bool = bit8(data, 4);
        let bank: usize = if self.prg_rom_mode == PrgRomMode::Switch32kB {
            bits8(data, 1, 3) as usize
        } else {
            bits8(data, 0, 3) as usize
        };
        let start: i32 = if self.prg_rom_mode == PrgRomMode::FixFirstBank {
            0xC000
        } else {
            0x8000
        };
        let end: i32 = if self.prg_rom_mode == PrgRomMode::FixLastBank {
            0xC000
        } else {
            0x10000
        };
        self.ram_enabled = !prg_ram_disable;
        self.cur_bank = bank;
        self.bank_settings.set_bank(bank, start..end);
    }

    /// Loads `data` into the register that `addr` selects.
    pub fn write(&mut self, addr: u16, data: u8)
        requires
            old(self).wf(),
            addr >= 0x8000,
        ensures
            *final(self) == old(self).after_register_write(addr, data),
            final(self).wf(),
    {
        if addr < 0xA000 {
            self.write_control(data);
        } else if addr < 0xC000 {
            self.write_chr0(data);
        } else if addr < 0xE000 {
            self.write_chr1(data);
        } else {
            self.write_prg(data);
        }
    }

    /// A write to the serial port.
    pub fn write_serial(&mut self, addr: u16, data: u8)
        requires
            old(self).wf(),
            addr >= 0x8000,
        ensures
            *final(self) == old(self).after_serial(addr, data),
            final(self).wf(),
    {
        proof {
            reveal(Mapper1::after_serial);
        }
        let bit7: bool = bit8(data, 7);
        if bit7 {
            self.set_prg_mode(PrgRomMode::FixLastBank);
            self.shift_reg.clear();
            self.writes = 0;
        } else if self.writes < 4 {
            let data_bit: u8 = flag_bit(bit8(data, 0));
            self.shift_reg.push(data_bit);
            self.writes = self.writes + 1;
        } else {
            let data_bit: u8 = flag_bit(bit8(data, 0));
            self.shift_reg.push(data_bit);
            let value: u8 = self.shift_reg.take();
            self.writes = 0;
            self.write(addr, value);
        }
    }

    /// Reads a byte.
    pub fn read_u8(&mut self, addr: u16) -> (r: u8)
        requires
            old(self).wf(),
        ensures
            (r, *final(self)) == old(self).reading(addr),
            final(self).wf(),
    {
        proof {
            reveal(Mapper1::reading);
        }
        if addr >= 0x8000 {
            match self.read_prg(addr) {
                Some(b) => b,
                None => {
                    self.bus.record_fault(addr);
                    0
                },
            }
        } else if addr >= 0x6000 {
            if self.ram_enabled {
                self.sram[(addr - 0x6000) as usize]
            } else {
                0
            }
        } else {
            self.bus.read_u8(addr)
        }
    }

    /// Writes a byte.
    pub fn write_u8(&mut self, addr: u16, data: u8)
        requires
            old(self).wf(),
        ensures
            *final(self) == old(self).after_write(addr, data),
            final(self).wf(),
    {
        proof {
            reveal(Mapper1::after_write);
        }
        if addr >= 0x8000 {
            self.write_serial(addr, data);
        } else if addr >= 0x6000 {
            if self.ram_enabled {
                self.sram[(addr - 0x6000) as usize] = data;
            }
        } else {
            self.bus.write_u8(addr, data);
        }
    }

    /// The work RAM, to be kept in the save file.
    pub fn save_data(&self) -> (data: [u8; 0x2000])
        ensures
            data == self.sram,
    {
        self.sram
    }
}

/// The five-bit value that five serial writes accumulate: the bit of the
/// first write ends up lowest.
pub open spec fn serial_value(d0: u8, d1: u8, d2: u8, d3: u8, d4: u8) -> u8 {
    (d0 % 2 + (d1 % 2) * 2 + (d2 % 2) * 4 + (d3 % 2) * 8 + (d4 % 2) * 16) as u8
}

/// Shifting a bit into a five-bit register halves the content and puts the
/// bit at position 4.
proof fn lemma_push_five(d: u8, b: u8)
    by (bit_vector)
    requires
        d < 32,
        b <= 1,
    ensures
        (d >> 1) | (b << 4u8) == d / 2 + b * 16,
{
}

/// One serial write with bit 7 clear, before the fifth, shifts bit 0 in and
/// changes nothing else.
proof fn lemma_serial_shift(m: Mapper1, addr: u16, data: u8)
    requires
        addr >= 0x8000,
        !bit_at(data as int, 7),
        m.writes < 4,
        m.shift_reg.data < 32,
    ensures
        m.after_write(addr, data) == (Mapper1 {
            shift_reg: ShiftRegister { data: (m.shift_reg.data / 2 + (data % 2) * 16) as u8 },
            writes: (m.writes + 1) as usize,
            ..m
        }),
{
    reveal(Mapper1::after_write);
    reveal(Mapper1::after_serial);
    lemma_push_five(m.shift_reg.data, bool_bit(bit_at(data as int, 0)));
}

/// Five writes to the serial port with bit 7 clear load the accumulated
/// five-bit value into the register that the address of the fifth write
/// selects; the addresses of the first four writes do not matter.
pub proof fn lemma_fifth_write_commits(
    m: Mapper1,
    a0: u16,
    a1: u16,
    a2: u16,
    a3: u16,
    a4: u16,
    d0: u8,
    d1: u8,
    d2: u8,
    d3: u8,
    d4: u8,
)
    requires
        m.writes == 0,
        m.shift_reg.data == 0,
        a0 >= 0x8000 && a1 >= 0x8000 && a2 >= 0x8000 && a3 >= 0x8000 && a4 >= 0x8000,
        !bit_at(d0 as int, 7) && !bit_at(d1 as int, 7) && !bit_at(d2 as int, 7) && !bit_at(
            d3 as int,
            7,
        ) && !bit_at(d4 as int, 7),
    ensures
        m.after_write(a0, d0).after_write(a1, d1).after_write(a2, d2).after_write(
            a3,
            d3,
        ).after_write(a4, d4) == m.after_register_write(a4, serial_value(d0, d1, d2, d3, d4)),
{
    lemma_serial_shift(m, a0, d0);
    let s1 = m.after_write(a0, d0);
    lemma_serial_shift(s1, a1, d1);
    let s2 = s1.after_write(a1, d1);
    lemma_serial_shift(s2, a2, d2);
    let s3 = s2.after_write(a2, d2);
    lemma_serial_shift(s3, a3, d3);
    let s4 = s3.after_write(a3, d3);
    assert(s4.writes == 4);
    assert(s4.shift_reg.data == (d0 % 2) * 2 + (d1 % 2) * 4 + (d2 % 2) * 8 + (d3 % 2) * 16);
    reveal(Mapper1::after_write);
    reveal(Mapper1::after_serial);
    lemma_push_five(s4.shift_reg.data, bool_bit(bit_at(d4 as int, 0)));
    assert(s4.shift_reg.after_push(bool_bit(bit_at(d4 as int, 0))).data == serial_value(
        d0,
        d1,
        d2,
        d3,
        d4,
    ));
    assert((Mapper1 { shift_reg: ShiftRegister { data: 0 }, writes: 0, ..s4 }) == m);
}

/// A write with bit 7 set, at any point of a sequence, throws the
/// accumulated bits away and fixes the last bank; the next five writes
/// start a new value.
pub proof fn lemma_reset_aborts(m: Mapper1, addr: u16, data: u8)
    requires
        addr >= 0x8000,
        bit_at(data as int, 7),
    ensures
        m.after_write(addr, data) == (Mapper1 {
            prg_rom_mode: PrgRomMode::FixLastBank,
            bank_settings: prg_table(
                PrgRomMode::FixLastBank,
                m.cur_bank,
                (m.num_banks - 1) as usize,
            ),
            shift_reg: ShiftRegister { data: 0 },
            writes: 0,
            ..m
        }),
{
    reveal(Mapper1::after_write);
    reveal(Mapper1::after_serial);
}

} // verus!
