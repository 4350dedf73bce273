//! A flat 64 KiB of RAM in place of a cartridge, for exercising the processor.

use vstd::prelude::*;
use crate::bus::Bus;
use crate::cartridge::{Cartridge, MapperType};

verus! {

/// 64 KiB of RAM behind every address.
#[derive(Clone)]
pub struct MockBus {
    pub bus: Bus,
    pub ram: [u8; 0x10000],
}

impl MockBus {
    /// The bus is well formed.
    pub open spec fn wf(self) -> bool {
        self.bus.wf()
    }

    /// What a read at `addr` returns and leaves behind.
    pub open spec fn reading(self, addr: u16) -> (u8, MockBus) {
        (self.ram[addr as int], self)
    }

    /// The memory after `data` was written at `addr`.
    pub open spec fn after_write(self, addr: u16, data: u8) -> MockBus {
        MockBus { ram: vstd::array::spec_array_update(self.ram, addr as int, data), ..self }
    }

    /// All of memory zero.
    pub fn new(cartridge: Cartridge, clockrate: u32) -> (m: MockBus)
        requires
            cartridge.chr_rom is Some,
            cartridge.prg_rom matches Some(prg) ==> prg@.len() == 0 || prg@.len() == 0x4000
                || prg@.len() == 0x8000,
        ensures
            m.wf(),
            forall|i: int| 0 <= i < 0x10000 ==> m.ram[i] == 0,
            m.bus.is_initial(
                match cartridge.prg_rom {
                    Some(prg) => prg@,
                    None => Seq::empty(),
                },
                cartridge.chr_rom->0,
                cartridge,
                MapperType::Nrom,
                clockrate,
            ),
    {
        MockBus { bus: Bus::new(cartridge, MapperType::Nrom, clockrate), ram: [0; 0x10000] }
    }

    /// Reads a byte.
    pub fn read_u8(&mut self, addr: u16) -> (r: u8)
        ensures
            (r, *final(self)) == old(self).reading(addr),
    {
        self.ram[addr as usize]
    }

    /// Writes a byte.
    pub fn write_u8(&mut self, addr: u16, data: u8)
        ensures
            *final(self) == old(self).after_write(addr, data),
    {
        self.ram[addr as usize] = data;
    }
}

} // verus!
