//! The cartridge that switches the lower 16 KiB of program ROM and fixes
//! the upper 16 KiB to the last bank.

use vstd::prelude::*;
use crate::bus::mapper::{banked_byte, read_banked, BankSettings, Window};
use crate::bus::Bus;
use crate::cartridge::{Cartridge, MapperType};

verus! {

/// A cartridge with a switched lower program bank.
#[derive(Clone)]
pub struct Mapper2 {
    pub bank_settings: BankSettings,
    pub bus: Bus,
    pub cur_bank: usize,
    pub num_banks: usize,
    pub prg_rom: Vec<u8>,
}

impl Mapper2 {
    /// The bus and the routing table are well formed.
    pub open spec fn wf(self) -> bool {
        self.bus.wf() && self.bank_settings.wf()
    }

    /// The program byte at `addr` of 0x8000-0xFFFF, if the ROM holds it:
    /// the selected bank below 0xC000, the last bank above.
    pub open spec fn prg_byte(self, addr: u16) -> Option<u8> {
        if addr < 0xC000 {
            banked_byte(self.prg_rom@, self.cur_bank as int, 0x4000, addr as int % 0x8000)
        } else {
            banked_byte(self.prg_rom@, self.prg_rom@.len() / 0x4000 - 1, 0x4000, addr as int % 0x4000)
        }
    }

    /// What a read at `addr` returns and leaves behind; a read of a bank
    /// the ROM does not hold returns 0 and records the fault.
    #[verifier::opaque]
    pub open spec fn reading(self, addr: u16) -> (u8, Mapper2) {
        if addr >= 0x8000 {
            match self.prg_byte(addr) {
                Some(b) => (b, self),
                None => (0, Mapper2 { bus: self.bus.with_fault(addr), ..self }),
            }
        } else {
            let f = self.bus.reading(addr);
            (f.0, Mapper2 { bus: f.1, ..self })
        }
    }

    /// The cartridge after `data` was written at `addr`: from 0x8000 on the
    /// low three bits select the lower program bank.
    #[verifier::opaque]
    pub open spec fn after_write(self, addr: u16, data: u8) -> Mapper2 {
        if addr >= 0x8000 {
            Mapper2 {
                cur_bank: (data % 8) as usize,
                bank_settings: self.bank_settings.after_set_bank((data % 8) as usize, 0x8000),
                ..self
            }
        } else {
            Mapper2 { bus: self.bus.after_write(addr, data), ..self }
        }
    }

    /// The cartridge at power-up: bank 0 below, the last bank above.
    pub fn new(cartridge: Cartridge, clockrate: u32) -> (m: Mapper2)
        requires
            cartridge.chr_rom is Some,
            cartridge.prg_rom matches Some(prg) && prg@.len() >= 0x4000,
        ensures
            m.wf(),
            m.cur_bank == 0,
            m.prg_rom == cartridge.prg_rom->0,
            m.num_banks == cartridge.prg_rom->0@.len() / 0x4000,
            m.bank_settings == BankSettings::of(
                seq![
                    Window { bank: 0, start: 0x8000, end: 0xC000 },
                    Window { bank: (m.num_banks - 1) as usize, start: 0xC000, end: 0x10000 },
                ],
            ),
            m.bus.is_initial(
                Seq::empty(),
                cartridge.chr_rom->0,
                cartridge,
                MapperType::Uxrom,
                clockrate,
            ),
    {
        let Cartridge { chr_rom, mapper_type, mirroring, prg_rom } = cartridge;
        let prg_rom: Vec<u8> = prg_rom.unwrap();
        let num_banks: usize = prg_rom.len() / 0x4000;
        let bank_settings = BankSettings::new(
            vec![(0usize, 0x8000i32..0xC000i32), (num_banks - 1, 0xC000i32..0x10000i32)],
        );
        assert(bank_settings.windows =~= BankSettings::of(
            seq![
                Window { bank: 0, start: 0x8000, end: 0xC000 },
                Window { bank: (num_banks - 1) as usize, start: 0xC000, end: 0x10000 },
            ],
        ).windows);
        Mapper2 {
            bank_settings,
            bus: Bus::new(
                Cartridge { chr_rom, mapper_type, mirroring, prg_rom: None },
                MapperType::Uxrom,
                clockrate,
            ),
            cur_bank: 0,
            num_banks,
            prg_rom,
        }
    }

    /// Reads a byte.
    pub fn read_u8(&mut self, addr: u16) -> (r: u8)
        requires
            old(self).wf(),
        ensures
            (r, *final(self)) == old(self).reading(addr),
            final(self).wf(),
    {
        proof {
            reveal(Mapper2::reading);
        }
        if addr >= 0x8000 {
            let byte: Option<u8> = if addr < 0xC000 {
                read_banked(&self.prg_rom, self.cur_bank, 0x4000, addr as usize % 0x8000)
            } else {
                let num_banks: usize = self.prg_rom.len() / 0x4000;
                if num_banks == 0 {
                    None
                } else {
                    read_banked(&self.prg_rom, num_banks - 1, 0x4000, addr as usize % 0x4000)
                }
            };
            match byte {
                Some(b) => b,
                None => {
                    self.bus.record_fault(addr);
                    0
                },
            }
        } else {
            self.bus.read_u8(addr)
        }
    }

    /// Writes a byte.
    pub fn write_u8(&mut self, addr: u16, data: u8)
        requires
            old(self).wf(),
        ensures
            *final(self) == old(self).after_write(addr, data),
            final(self).wf(),
    {
        proof {
            reveal(Mapper2::after_write);
        }
        if addr >= 0x8000 {
            let bank: usize = (data % 8) as usize;
            self.cur_bank = bank;
            self.bank_settings.set_bank(bank, 0x8000..0xC000);
        } else {
            self.bus.write_u8(addr, data);
        }
    }
}

} // verus!
