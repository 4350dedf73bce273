//! What the processor reaches below the cartridge: work RAM, the picture and
//! audio units and the game pad.

use vstd::prelude::*;
use crate::apu::Apu;
use crate::cartridge::{Cartridge, MapperType};
use crate::controller::Controller;
use crate::ppu::Ppu;

pub mod clock;
pub mod mapper;
pub mod service;

verus! {

/// The common bus.
#[derive(Clone)]
pub struct Bus {
    /// The page a write to 0x4014 asked to copy into sprite memory.
    pub dma_interrupt: Option<u8>,
    pub apu: Apu,
    pub controller1: Controller,
    pub ppu: Ppu,
    /// Program ROM of a cartridge without bank switching, 16 or 32 KiB;
    /// empty when the mapper holds the program ROM itself.
    pub prg_rom: Vec<u8>,
    pub ram: [u8; 0x800],
    /// The first processor address that reached a bank the cartridge does not hold.
    pub fault: Option<u16>,
}

impl Bus {
    /// The units are well formed and the program ROM has a size the bus can map.
    #[verifier::opaque]
    pub open spec fn wf(self) -> bool {
        &&& self.ppu.wf()
        &&& self.apu.wf()
        &&& self.controller1.wf()
        &&& (self.prg_rom@.len() == 0 || self.prg_rom@.len() == 0x4000 || self.prg_rom@.len()
            == 0x8000)
    }

    /// The bus with `addr` recorded as unreachable, unless an earlier address already is.
    pub open spec fn with_fault(self, addr: u16) -> Bus {
        Bus {
            fault: if self.fault is Some {
                self.fault
            } else {
                Some(addr)
            },
            ..self
        }
    }

    /// The program byte at `addr` of 0x8000-0xFFFF; 16 KiB show twice.
    pub open spec fn prg_byte(self, addr: u16) -> u8 {
        if self.prg_rom@.len() == 0x4000 {
            self.prg_rom@[addr as int % 0x4000]
        } else {
            self.prg_rom@[addr as int % 0x8000]
        }
    }

    /// What a read at `addr` returns and leaves behind.  Work RAM shows
    /// four times below 0x2000, the eight ports of the picture unit repeat
    /// up to 0x3FFF, then come the audio unit, the game pad at 0x4016,
    /// nothing up to 0x7FFF, and the program ROM.
    #[verifier::opaque]
    pub open spec fn reading(self, addr: u16) -> (u8, Bus) {
        if addr < 0x2000 {
            (self.ram[addr as int % 0x800], self)
        } else if addr < 0x4000 {
            let f = self.ppu.reading_reg((addr % 8) as u8);
            (f.0, Bus { ppu: f.1, ..self })
        } else if addr <= 0x4015 {
            (self.apu.read_value(addr), Bus { apu: self.apu.after_read(addr), ..self })
        } else if addr == 0x4016 {
            (self.controller1.read_value(), Bus { controller1: self.controller1.after_read(), ..self })
        } else if addr < 0x8000 {
            (0, self)
        } else {
            (self.prg_byte(addr), self)
        }
    }

    /// The bus after `data` was written at `addr`.  A write to 0x4014 asks
    /// for a copy into sprite memory; writes from 0x4018 on go nowhere.
    #[verifier::opaque]
    pub open spec fn after_write(self, addr: u16, data: u8) -> Bus {
        if addr < 0x2000 {
            Bus { ram: vstd::array::spec_array_update(self.ram, addr as int % 0x800, data), ..self }
        } else if addr < 0x4000 {
            Bus { ppu: self.ppu.after_write_reg((addr % 8) as u8, data), ..self }
        } else if addr == 0x4014 {
            Bus { dma_interrupt: Some(data), ..self }
        } else if addr <= 0x4015 || addr == 0x4017 {
            Bus { apu: self.apu.after_write(addr, data), ..self }
        } else if addr == 0x4016 {
            Bus { controller1: self.controller1.after_write(data), ..self }
        } else {
            self
        }
    }

    /// Whether `self` is the bus at power-up for a cartridge with the
    /// given memories.
    pub open spec fn is_initial(
        self,
        prg_rom: Seq<u8>,
        chr_rom: Vec<u8>,
        cartridge: Cartridge,
        mapper_type: MapperType,
        clockrate: u32,
    ) -> bool {
        &&& self.dma_interrupt is None
        &&& self.fault is None
        &&& self.prg_rom@ == prg_rom
        &&& self.ppu.is_initial(chr_rom, cartridge.mirroring, mapper_type)
        &&& self.apu.clockrate == clockrate && self.apu.cycles == 0 && self.apu.frame_counter == 0
        &&& self.apu.status() == 0 && !self.apu.dmc.wants_sample()
        &&& self.controller1.idx == 0 && !self.controller1.strobe
        &&& forall|i: int| 0 <= i < 8 ==> !self.controller1.buttons[i]
        &&& forall|i: int| 0 <= i < 0x800 ==> self.ram[i] == 0
    }

    /// The bus at power-up.  It takes the program ROM that is still in the
    /// cartridge, and the character memory.
    pub fn new(cartridge: Cartridge, mapper_type: MapperType, clockrate: u32) -> (b: Bus)
        requires
            cartridge.chr_rom is Some,
            cartridge.prg_rom matches Some(prg) ==> prg@.len() == 0 || prg@.len() == 0x4000
                || prg@.len() == 0x8000,
        ensures
            b.wf(),
            b.is_initial(
                match cartridge.prg_rom {
                    Some(prg) => prg@,
                    None => Seq::empty(),
                },
                cartridge.chr_rom->0,
                cartridge,
                mapper_type,
                clockrate,
            ),
    {
        proof {
            reveal(Bus::wf);
        }
        let Cartridge { chr_rom, mapper_type: kind, mirroring, prg_rom } = cartridge;
        let prg_rom: Vec<u8> = match prg_rom {
            Some(prg) => prg,
            None => Vec::new(),
        };
        Bus {
            dma_interrupt: None,
            apu: Apu::new(clockrate),
            controller1: Controller::new(),
            ppu: Ppu::new(Cartridge { chr_rom, mapper_type: kind, mirroring, prg_rom: None }, mapper_type),
            prg_rom,
            ram: [0; 0x800],
            fault: None,
        }
    }

    /// Records `addr` as unreachable unless an earlier address already is.
    pub fn record_fault(&mut self, addr: u16)
        ensures
            *final(self) == old(self).with_fault(addr),
            old(self).wf() ==> final(self).wf(),
    {
        proof {
            reveal(Bus::wf);
        }
        if self.fault.is_none() {
            self.fault = Some(addr);
        }
    }

    /// Reads a byte.
    pub fn read_u8(&mut self, addr: u16) -> (r: u8)
        requires
            old(self).wf(),
            addr >= 0x8000 ==> old(self).prg_rom@.len() != 0,
        ensures
            (r, *final(self)) == old(self).reading(addr),
            final(self).wf(),
            final(self).prg_rom == old(self).prg_rom,
    {
        proof {
            reveal(Bus::wf);
        }
        proof {
            reveal(Bus::reading);
        }
        if addr < 0x2000 {
            self.ram[(addr % 0x800) as usize]
        } else if addr < 0x4000 {
            self.ppu.read_reg((addr % 8) as u8)
        } else if addr <= 0x4015 {
            self.apu.read(addr)
        } else if addr == 0x4016 {
            self.controller1.read()
        } else if addr < 0x8000 {
            0
        } else if self.prg_rom.len() == 0x4000 {
            self.prg_rom[(addr % 0x4000) as usize]
        } else {
            self.prg_rom[(addr % 0x8000) as usize]
        }
    }

    /// Writes a byte.
    pub fn write_u8(&mut self, addr: u16, data: u8)
        requires
            old(self).wf(),
        ensures
            *final(self) == old(self).after_write(addr, data),
            final(self).wf(),
            final(self).prg_rom == old(self).prg_rom,
    {
        proof {
            reveal(Bus::wf);
        }
        proof {
            reveal(Bus::after_write);
        }
        if addr < 0x2000 {
            self.ram[(addr % 0x800) as usize] = data;
        } else if addr < 0x4000 {
            self.ppu.write_reg((addr % 8) as u8, data);
        } else if addr == 0x4014 {
            self.dma_interrupt = Some(data);
        } else if addr <= 0x4015 || addr == 0x4017 {
            self.apu.write(addr, data);
        } else if addr == 0x4016 {
            self.controller1.write(data);
        }
    }
}

/// What is written to work RAM is read back at each of its four mirrors.
pub proof fn lemma_ram_mirrors(b: Bus, addr: u16, data: u8, k: int)
    requires
        addr < 0x800,
        0 <= k < 4,
    ensures
        b.after_write(addr, data).reading((addr + k * 0x800) as u16).0 == data,
{
    reveal(Bus::reading);
    reveal(Bus::after_write);
}

} // verus!
