//! The cartridge without bank switching: 16 or 32 KiB of program ROM.

use vstd::prelude::*;
use crate::bus::Bus;
use crate::cartridge::{Cartridge, MapperType};

verus! {

/// A cartridge without bank switching.
#[derive(Clone)]
pub struct Mapper0 {
    pub bus: Bus,
}

impl Mapper0 {
    /// The bus is well formed and holds the program ROM.
    pub open spec fn wf(self) -> bool {
        self.bus.wf() && self.bus.prg_rom@.len() != 0
    }

    /// What a read at `addr` returns and leaves behind: all of it is the common bus.
    pub open spec fn reading(self, addr: u16) -> (u8, Mapper0) {
        let f = self.bus.reading(addr);
        (f.0, Mapper0 { bus: f.1 })
    }

    /// The cartridge after `data` was written at `addr`.
    pub open spec fn after_write(self, addr: u16, data: u8) -> Mapper0 {
        Mapper0 { bus: self.bus.after_write(addr, data) }
    }

    /// The cartridge at power-up.
    pub fn new(cartridge: Cartridge, clockrate: u32) -> (m: Mapper0)
        requires
            cartridge.chr_rom is Some,
            cartridge.prg_rom matches Some(prg) && (prg@.len() == 0x4000 || prg@.len() == 0x8000),
        ensures
            m.wf(),
            m.bus.is_initial(
                cartridge.prg_rom->0@,
                cartridge.chr_rom->0,
                cartridge,
                MapperType::Nrom,
                clockrate,
            ),
    {
        proof {
            reveal(Bus::wf);
        }
        Mapper0 { bus: Bus::new(cartridge, MapperType::Nrom, clockrate) }
    }

    /// Reads a byte.
    pub fn read_u8(&mut self, addr: u16) -> (r: u8)
        requires
            old(self).wf(),
        ensures
            (r, *final(self)) == old(self).reading(addr),
            final(self).wf(),
    {
        self.bus.read_u8(addr)
    }

    /// Writes a byte.
    pub fn write_u8(&mut self, addr: u16, data: u8)
        requires
            old(self).wf(),
        ensures
            *final(self) == old(self).after_write(addr, data),
            final(self).wf(),
    {
        self.bus.write_u8(addr, data)
    }
}

} // verus!
