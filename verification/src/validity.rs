//! Executable tests of well-formedness, for a machine state that was
//! assembled outside the library, such as one read back from storage.
//! Each `is_valid` returns exactly the type's `wf`.

use vstd::prelude::*;
use crate::apu::pulse::sweep::Sweep;
use crate::apu::pulse::Pulse;
use crate::apu::triangle::Triangle;
use crate::apu::Apu;
use crate::bus::mapper::mapper0::Mapper0;
use crate::bus::mapper::mapper1::Mapper1;
use crate::bus::mapper::mapper2::Mapper2;
use crate::bus::mapper::mapper3::Mapper3;
use crate::bus::mapper::mapper4::Mapper4;
use crate::bus::mapper::mapper7::Mapper7;
use crate::bus::mapper::mockbus::MockBus;
use crate::bus::mapper::{BankSettings, Mapper};
use crate::bus::Bus;
use crate::controller::Controller;
use crate::cpu::Cpu;
use crate::ppu::address::Address;
use crate::ppu::ctrl::Control;
use crate::ppu::memory::VideoMemory;
use crate::ppu::oam::{Attributes, Oam};
use crate::ppu::palette::PaletteTable;
use crate::ppu::pipeline::Background;
use crate::ppu::sprites::SpriteUnit;
use crate::ppu::{Beam, Ppu, Registers};

verus! {

impl Address {
    pub fn is_valid(&self) -> (ok: bool)
        ensures
            ok == self.wf(),
    {
        self.addr <= 0x7FFF
    }
}

impl Control {
    pub fn is_valid(&self) -> (ok: bool)
        ensures
            ok == self.wf(),
    {
        (self.size == 64 || self.size == 128) && (self.bg_pt_addr == 0 || self.bg_pt_addr == 0x1000)
            && (self.spr_pt_addr == 0 || self.spr_pt_addr == 0x1000) && (self.base_nt_addr == 0x2000
            || self.base_nt_addr == 0x2400 || self.base_nt_addr == 0x2800 || self.base_nt_addr
            == 0x2C00)
    }
}

impl Registers {
    pub fn is_valid(&self) -> (ok: bool)
        ensures
            ok == self.wf(),
    {
        self.v.is_valid() && self.t.is_valid() && self.x <= 7 && self.ctrl.is_valid()
    }
}

impl Beam {
    pub fn is_valid(&self) -> (ok: bool)
        ensures
            ok == self.wf(),
    {
        self.dot <= 340 && self.scanline <= 261 && self.sx <= 256 && (self.dot != 0 || self.sx == 0)
            && (self.dot < 1 || self.dot > 256 || self.sx < self.dot)
    }
}

impl Background {
    pub fn is_valid(&self) -> (ok: bool)
        ensures
            ok == self.wf(),
    {
        self.at_lo_latch <= 1 && self.at_hi_latch <= 1
    }
}

impl Attributes {
    pub fn is_valid(&self) -> (ok: bool)
        ensures
            ok == self.wf(),
    {
        self.palette <= 7
    }
}

impl SpriteUnit {
    pub fn is_valid(&self) -> (ok: bool)
        ensures
            ok == self.wf(),
    {
        if self.spr_idx > 8 {
            return false;
        }
        match self.cur_spr {
            Some(s) => {
                if !s.attrib.is_valid() {
                    return false;
                }
            },
            None => {},
        }
        let mut i: usize = 0;
        while i < 8
            invariant
                i <= 8,
                forall|j: int| 0 <= j < i ==> (#[trigger] self.spr_latches[j]).wf(),
                forall|j: int| 0 <= j < i ==> #[trigger] self.spr_shift_count[j] <= 7,
            decreases 8 - i,
        {
            if !self.spr_latches[i].is_valid() || self.spr_shift_count[i] > 7 {
                return false;
            }
            i = i + 1;
        }
        true
    }
}

impl Oam {
    pub fn is_valid(&self) -> (ok: bool)
        ensures
            ok == self.wf(),
    {
        if self.count > 8 {
            return false;
        }
        let mut i: usize = 0;
        while i < 8
            invariant
                i <= 8,
                forall|j: int| 0 <= j < i ==> (#[trigger] self.sprites[j]).1.attrib.wf(),
            decreases 8 - i,
        {
            if !self.sprites[i].1.attrib.is_valid() {
                return false;
            }
            i = i + 1;
        }
        true
    }
}

impl PaletteTable {
    pub fn is_valid(&self) -> (ok: bool)
        ensures
            ok == self.wf(),
    {
        self.selected < 8
    }
}

impl BankSettings {
    pub fn is_valid(&self) -> (ok: bool)
        ensures
            ok == self.wf(),
    {
        self.len <= 6
    }
}

impl VideoMemory {
    pub fn is_valid(&self) -> (ok: bool)
        ensures
            ok == self.wf(),
    {
        self.bank_settings.is_valid() && self.mmc7_vram_page <= 1
    }
}

impl Ppu {
    pub fn is_valid(&self) -> (ok: bool)
        ensures
            ok == self.wf(),
    {
        self.mem.is_valid() && self.regs.is_valid() && self.beam.is_valid() && self.bg.is_valid()
            && self.spr.is_valid() && self.oam.is_valid() && self.palette.is_valid()
    }
}

impl Sweep {
    pub fn is_valid(&self) -> (ok: bool)
        ensures
            ok == self.wf(),
    {
        self.shift <= 7
    }
}

impl Pulse {
    pub fn is_valid(&self) -> (ok: bool)
        ensures
            ok == self.wf(),
    {
        self.duty <= 3 && self.pos <= 7 && self.reload <= 0x7FF && self.sweep.is_valid()
    }
}

impl Triangle {
    pub fn is_valid(&self) -> (ok: bool)
        ensures
            ok == self.wf(),
    {
        self.pos <= 31 && self.timer_reload <= 0x7FF
    }
}

impl Apu {
    pub fn is_valid(&self) -> (ok: bool)
        ensures
            ok == self.wf(),
    {
        self.frame_counter <= 5 && self.pulse1.is_valid() && self.pulse2.is_valid()
            && self.triangle.is_valid()
    }
}

impl Controller {
    pub fn is_valid(&self) -> (ok: bool)
        ensures
            ok == self.wf(),
    {
        self.idx <= 8
    }
}

impl Bus {
    pub fn is_valid(&self) -> (ok: bool)
        ensures
            ok == self.wf(),
    {
        proof {
            reveal(Bus::wf);
        }
        let n: usize = self.prg_rom.len();
        self.ppu.is_valid() && self.apu.is_valid() && self.controller1.is_valid() && (n == 0 || n
            == 0x4000 || n == 0x8000)
    }
}

impl Mapper0 {
    pub fn is_valid(&self) -> (ok: bool)
        ensures
            ok == self.wf(),
    {
        self.bus.is_valid() && self.bus.prg_rom.len() != 0
    }
}

impl Mapper1 {
    pub fn is_valid(&self) -> (ok: bool)
        ensures
            ok == self.wf(),
    {
        self.bus.is_valid() && self.bank_settings.is_valid() && self.num_banks >= 1 && self.writes
            <= 4
    }
}

impl Mapper2 {
    pub fn is_valid(&self) -> (ok: bool)
        ensures
            ok == self.wf(),
    {
        self.bus.is_valid() && self.bank_settings.is_valid()
    }
}

impl Mapper3 {
    pub fn is_valid(&self) -> (ok: bool)
        ensures
            ok == self.wf(),
    {
        self.bus.is_valid() && self.bus.prg_rom.len() != 0
    }
}

impl Mapper4 {
    pub fn is_valid(&self) -> (ok: bool)
        ensures
            ok == self.wf(),
    {
        self.bus.is_valid() && self.bank_settings.is_valid()
    }
}

impl Mapper7 {
    pub fn is_valid(&self) -> (ok: bool)
        ensures
            ok == self.wf(),
    {
        self.bus.is_valid()
    }
}

impl MockBus {
    pub fn is_valid(&self) -> (ok: bool)
        ensures
            ok == self.wf(),
    {
        self.bus.is_valid()
    }
}

impl Mapper {
    pub fn is_valid(&self) -> (ok: bool)
        ensures
            ok == self.wf(),
    {
        proof {
            reveal(Mapper::wf);
        }
        match self {
            Mapper::Mapper0(m) => m.is_valid(),
            Mapper::Mapper1(m) => m.is_valid(),
            Mapper::Mapper2(m) => m.is_valid(),
            Mapper::Mapper3(m) => m.is_valid(),
            Mapper::Mapper4(m) => m.is_valid(),
            Mapper::Mapper7(m) => m.is_valid(),
            Mapper::MockBus(m) => m.is_valid(),
        }
    }
}

impl Cpu {
    /// Whether the machine is well formed, so that the library's functions
    /// may be called on it.
    pub fn is_valid(&self) -> (ok: bool)
        ensures
            ok == self.wf(),
    {
        self.bus.is_valid()
    }
}

} // verus!
