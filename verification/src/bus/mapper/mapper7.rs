//! The cartridge that switches 32 KiB of program ROM and selects one of two
//! name-table pages.

use vstd::prelude::*;
use crate::bus::mapper::{banked_byte, read_banked};
use crate::bus::Bus;
use crate::cartridge::{Cartridge, MapperType};
use crate::ppu::memory::VideoMemory;
use crate::ppu::Ppu;
use crate::util::bit::{bit8, bit_at, bits_abs8};
use crate::util::{bool_bit, flag_bit};

verus! {

/// A cartridge with one switched 32 KiB program bank.
#[derive(Clone)]
pub struct Mapper7 {
    pub cur_bank: usize,
    pub num_banks: usize,
    pub prg_rom: Vec<u8>,
    pub bus: Bus,
    pub vram_page: u8,
}

impl Mapper7 {
    /// The bus is well formed.
    pub open spec fn wf(self) -> bool {
        self.bus.wf()
    }

    /// What a read at `addr` returns and leaves behind; a read of a bank
    /// the ROM does not hold returns 0 and records the fault.
    #[verifier::opaque]
    pub open spec fn reading(self, addr: u16) -> (u8, Mapper7) {
        if addr >= 0x8000 {
            match banked_byte(self.prg_rom@, self.cur_bank as int, 0x8000, addr as int % 0x8000) {
                Some(b) => (b, self),
                None => (0, Mapper7 { bus: self.bus.with_fault(addr), ..self }),
            }
        } else {
            let f = self.bus.reading(addr);
            (f.0, Mapper7 { bus: f.1, ..self })
        }
    }

    /// The cartridge after `data` was written at `addr`: from 0x8000 on the
    /// low three bits select the program bank and bit 4 the name-table page.
    #[verifier::opaque]
    pub open spec fn after_write(self, addr: u16, data: u8) -> Mapper7 {
        if addr >= 0x8000 {
            Mapper7 {
                cur_bank: (data % 8) as usize,
                bus: Bus {
                    ppu: Ppu {
                        mem: VideoMemory {
                            mmc7_vram_page: bool_bit(bit_at(data as int, 4)),
                            ..self.bus.ppu.mem
                        },
                        ..self.bus.ppu
                    },
                    ..self.bus
                },
                ..self
            }
        } else {
            Mapper7 { bus: self.bus.after_write(addr, data), ..self }
        }
    }

    /// The cartridge at power-up, showing bank 0.
    pub fn new(cartridge: Cartridge, clockrate: u32) -> (m: Mapper7)
        requires
            cartridge.chr_rom is Some,
            cartridge.prg_rom is Some,
        ensures
            m.wf(),
            m.cur_bank == 0,
            m.vram_page == 0,
            m.prg_rom == cartridge.prg_rom->0,
            m.num_banks == cartridge.prg_rom->0@.len() / 0x4000,
            m.bus.is_initial(
                Seq::empty(),
                cartridge.chr_rom->0,
                cartridge,
                MapperType::Axrom,
                clockrate,
            ),
    {
        let Cartridge { chr_rom, mapper_type, mirroring, prg_rom } = cartridge;
        let prg_rom: Vec<u8> = prg_rom.unwrap();
        let num_banks: usize = prg_rom.len() / 0x4000;
        Mapper7 {
            bus: Bus::new(
                Cartridge { chr_rom, mapper_type, mirroring, prg_rom: None },
                MapperType::Axrom,
                clockrate,
            ),
            cur_bank: 0,
            num_banks,
            prg_rom,
            vram_page: 0,
        }
    }

    /// Reads a byte.
    pub fn read_u8(&mut self, addr: u16) -> (r: u8)
        requires
            old(self).wf(),
        ensures
            (r, *final(self)) == old(self).reading(addr),
            final(self).wf(),
    {
        proof {
            reveal(Mapper7::reading);
        }
        if addr >= 0x8000 {
            match read_banked(&self.prg_rom, self.cur_bank, 0x8000, addr as usize % 0x8000) {
                Some(b) => b,
                None => {
                    self.bus.record_fault(addr);
                    0
                },
            }
        } else {
            self.bus.read_u8(addr)
        }
    }

    /// Writes a byte.
    pub fn write_u8(&mut self, addr: u16, data: u8)
        requires
            old(self).wf(),
        ensures
            *final(self) == old(self).after_write(addr, data),
            final(self).wf(),
    {
        proof {
            reveal(Bus::wf);
        }
        proof {
            reveal(Mapper7::after_write);
        }
        if addr >= 0x8000 {
            let bank: usize = bits_abs8(data, 0, 2) as usize;
            let vram_page: u8 = flag_bit(bit8(data, 4));
            self.cur_bank = bank;
            self.bus.ppu.mem.mmc7_vram_page = vram_page;
        } else {
            self.bus.write_u8(addr, data);
        }
    }
}

} // verus!
