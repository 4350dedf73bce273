//! The cartridge that switches 8 KiB banks of character memory.

use vstd::prelude::*;
use crate::bus::Bus;
use crate::cartridge::{Cartridge, MapperType};
use crate::ppu::memory::VideoMemory;
use crate::ppu::Ppu;
use crate::util::bit::bits8;

verus! {

/// A cartridge with switched character banks.
#[derive(Clone)]
pub struct Mapper3 {
    pub bus: Bus,
}

impl Mapper3 {
    /// The bus is well formed and holds the program ROM.
    pub open spec fn wf(self) -> bool {
        self.bus.wf() && self.bus.prg_rom@.len() != 0
    }

    /// What a read at `addr` returns and leaves behind: all of it is the common bus.
    pub open spec fn reading(self, addr: u16) -> (u8, Mapper3) {
        let f = self.bus.reading(addr);
        (f.0, Mapper3 { bus: f.1 })
    }

    /// The cartridge after `data` was written at `addr`: from 0x8000 on the
    /// low two bits select the character bank shown at 0x0000-0x1FFF.
    pub open spec fn after_write(self, addr: u16, data: u8) -> Mapper3 {
        if addr >= 0x8000 {
            Mapper3 {
                bus: Bus {
                    ppu: Ppu {
                        mem: VideoMemory {
                            bank_settings: self.bus.ppu.mem.bank_settings.after_set_bank(
                                (data % 4) as usize,
                                0,
                            ),
                            ..self.bus.ppu.mem
                        },
                        ..self.bus.ppu
                    },
                    ..self.bus
                },
            }
        } else {
            Mapper3 { bus: self.bus.after_write(addr, data) }
        }
    }

    /// The cartridge at power-up.
    pub fn new(cartridge: Cartridge, clockrate: u32) -> (m: Mapper3)
        requires
            cartridge.chr_rom is Some,
            cartridge.prg_rom matches Some(prg) && (prg@.len() == 0x4000 || prg@.len() == 0x8000),
        ensures
            m.wf(),
            m.bus.is_initial(
                cartridge.prg_rom->0@,
                cartridge.chr_rom->0,
                cartridge,
                MapperType::Cnrom,
                clockrate,
            ),
    {
        proof {
            reveal(Bus::wf);
        }
        Mapper3 { bus: Bus::new(cartridge, MapperType::Cnrom, clockrate) }
    }

    /// Reads a byte.
    pub fn read_u8(&mut self, addr: u16) -> (r: u8)
        requires
            old(self).wf(),
        ensures
            (r, *final(self)) == old(self).reading(addr),
            final(self).wf(),
    {
        self.bus.read_u8(addr)
    }

    /// Writes a byte.
    pub fn write_u8(&mut self, addr: u16, data: u8)
        requires
            old(self).wf(),
        ensures
            *final(self) == old(self).after_write(addr, data),
            final(self).wf(),
    {
        proof {
            reveal(Bus::wf);
        }
        if addr >= 0x8000 {
            let bank: usize = bits8(data, 0, 1) as usize;
            self.bus.ppu.mem.bank_settings.set_bank(bank, 0x0000..0x2000);
        } else {
            self.bus.write_u8(addr, data);
        }
    }
}

} // verus!
