//! What the scheduler does to the machine between instructions: the copy
//! into sprite memory, and taking and acknowledging interrupts.

use vstd::prelude::*;
use crate::bus::mapper::Mapper;
use crate::bus::Bus;
use crate::controller::{Btn, Controller};
use crate::ppu::memory::VideoMemory;
use crate::ppu::mmc3::{Irq, Mmc3};
use crate::ppu::{Ppu, Registers};

verus! {

impl Bus {
    /// The bus after `data` was written to sprite memory.
    pub open spec fn after_oam_write(self, data: u8) -> Bus {
        Bus { ppu: Ppu { oam: self.ppu.oam.after_write(data), ..self.ppu }, ..self }
    }

    /// The bus with the request for a copy into sprite memory taken.
    pub open spec fn after_take_dma(self) -> Bus {
        Bus { dma_interrupt: None, ..self }
    }

    /// The bus with one request for the non-maskable interrupt taken; a
    /// request taken is no longer waiting to be taken back.
    pub open spec fn after_take_nmi(self) -> Bus {
        Bus {
            ppu: Ppu {
                regs: Registers {
                    nmi_occurred: false,
                    interrupts: if self.ppu.regs.interrupts > 0 {
                        (self.ppu.regs.interrupts - 1) as usize
                    } else {
                        0
                    },
                    ..self.ppu.regs
                },
                ..self.ppu
            },
            ..self
        }
    }

    /// The bus with the interrupt of the scanline counter acknowledged.
    pub open spec fn after_acknowledge(self) -> Bus {
        match self.ppu.mem.mmc3 {
            Some(m) => Bus {
                ppu: Ppu {
                    mem: VideoMemory {
                        mmc3: Some(Mmc3 { irq: Irq { occurred: false, ..m.irq }, ..m }),
                        ..self.ppu.mem
                    },
                    ..self.ppu
                },
                ..self
            },
            None => self,
        }
    }

    /// The bus with button `button` of the game pad held or let go.
    #[verifier::opaque]
    pub open spec fn after_button(self, button: Btn, down: bool) -> Bus {
        Bus {
            controller1: Controller {
                buttons: vstd::array::spec_array_update(
                    self.controller1.buttons,
                    button.position(),
                    down,
                ),
                ..self.controller1
            },
            ..self
        }
    }

    /// Whether the picture unit asks for the non-maskable interrupt: a
    /// latched request is waiting.
    pub open spec fn nmi_line(self) -> bool {
        self.ppu.regs.interrupts > 0
    }

    /// Whether the audio unit asks for an interrupt: the frame interrupt
    /// or the interrupt of the sample channel.
    pub open spec fn apu_irq_line(self) -> bool {
        self.apu.interrupt || self.apu.dmc.irq
    }

    /// Whether the scanline counter of the cartridge asks for an interrupt.
    pub open spec fn mapper_irq_line(self) -> bool {
        self.ppu.mem.mmc3 matches Some(m) && m.irq.occurred
    }

    /// Holds a button of the game pad down or lets it go.
    pub fn set_button(&mut self, button: Btn, down: bool)
        requires
            old(self).wf(),
        ensures
            *final(self) == old(self).after_button(button, down),
            final(self).wf(),
            final(self).prg_rom == old(self).prg_rom,
    {
        proof {
            reveal(Bus::wf);
            reveal(Bus::after_button);
        }
        let i: usize = button.index();
        self.controller1.buttons[i] = down;
    }

    /// Writes a byte to sprite memory.
    pub fn write_oam(&mut self, data: u8)
        requires
            old(self).wf(),
        ensures
            *final(self) == old(self).after_oam_write(data),
            final(self).wf(),
            final(self).prg_rom == old(self).prg_rom,
    {
        proof {
            reveal(Bus::wf);
        }
        self.ppu.oam.write(data);
    }

    /// Takes the request for a copy into sprite memory.
    pub fn take_dma(&mut self)
        requires
            old(self).wf(),
        ensures
            *final(self) == old(self).after_take_dma(),
            final(self).wf(),
            final(self).prg_rom == old(self).prg_rom,
    {
        proof {
            reveal(Bus::wf);
        }
        self.dma_interrupt = None;
    }

    /// Takes one request for the non-maskable interrupt.
    pub fn take_nmi(&mut self)
        requires
            old(self).wf(),
        ensures
            *final(self) == old(self).after_take_nmi(),
            final(self).wf(),
            final(self).prg_rom == old(self).prg_rom,
    {
        proof {
            reveal(Bus::wf);
        }
        if self.ppu.regs.interrupts > 0 {
            self.ppu.regs.interrupts = self.ppu.regs.interrupts - 1;
        }
        self.ppu.regs.nmi_occurred = false;
    }

    /// Acknowledges the interrupt of the scanline counter.
    pub fn acknowledge(&mut self)
        requires
            old(self).wf(),
        ensures
            *final(self) == old(self).after_acknowledge(),
            final(self).wf(),
            final(self).prg_rom == old(self).prg_rom,
    {
        proof {
            reveal(Bus::wf);
        }
        match self.ppu.mem.mmc3 {
            Some(m) => {
                let mut m2: Mmc3 = m;
                m2.irq.occurred = false;
                self.ppu.mem.mmc3 = Some(m2);
            },
            None => {},
        }
    }
}

impl Mapper {
    /// The machine after `data` was written to sprite memory.
    #[verifier::opaque]
    pub open spec fn after_oam_write(self, data: u8) -> Mapper {
        match self {
            Mapper::Mapper0(m) => Mapper::Mapper0(crate::bus::mapper::mapper0::Mapper0 { bus: m.bus.after_oam_write(data), ..m }),
            Mapper::Mapper1(m) => Mapper::Mapper1(crate::bus::mapper::mapper1::Mapper1 { bus: m.bus.after_oam_write(data), ..m }),
            Mapper::Mapper2(m) => Mapper::Mapper2(crate::bus::mapper::mapper2::Mapper2 { bus: m.bus.after_oam_write(data), ..m }),
            Mapper::Mapper3(m) => Mapper::Mapper3(crate::bus::mapper::mapper3::Mapper3 { bus: m.bus.after_oam_write(data), ..m }),
            Mapper::Mapper4(m) => Mapper::Mapper4(crate::bus::mapper::mapper4::Mapper4 { bus: m.bus.after_oam_write(data), ..m }),
            Mapper::Mapper7(m) => Mapper::Mapper7(crate::bus::mapper::mapper7::Mapper7 { bus: m.bus.after_oam_write(data), ..m }),
            Mapper::MockBus(m) => Mapper::MockBus(crate::bus::mapper::mockbus::MockBus { bus: m.bus.after_oam_write(data), ..m }),
        }
    }

    /// The machine after the request for a copy into sprite memory was taken.
    #[verifier::opaque]
    pub open spec fn after_take_dma(self) -> Mapper {
        match self {
            Mapper::Mapper0(m) => Mapper::Mapper0(crate::bus::mapper::mapper0::Mapper0 { bus: m.bus.after_take_dma(), ..m }),
            Mapper::Mapper1(m) => Mapper::Mapper1(crate::bus::mapper::mapper1::Mapper1 { bus: m.bus.after_take_dma(), ..m }),
            Mapper::Mapper2(m) => Mapper::Mapper2(crate::bus::mapper::mapper2::Mapper2 { bus: m.bus.after_take_dma(), ..m }),
            Mapper::Mapper3(m) => Mapper::Mapper3(crate::bus::mapper::mapper3::Mapper3 { bus: m.bus.after_take_dma(), ..m }),
            Mapper::Mapper4(m) => Mapper::Mapper4(crate::bus::mapper::mapper4::Mapper4 { bus: m.bus.after_take_dma(), ..m }),
            Mapper::Mapper7(m) => Mapper::Mapper7(crate::bus::mapper::mapper7::Mapper7 { bus: m.bus.after_take_dma(), ..m }),
            Mapper::MockBus(m) => Mapper::MockBus(crate::bus::mapper::mockbus::MockBus { bus: m.bus.after_take_dma(), ..m }),
        }
    }

    /// The machine after one request for the non-maskable interrupt was taken.
    #[verifier::opaque]
    pub open spec fn after_take_nmi(self) -> Mapper {
        match self {
            Mapper::Mapper0(m) => Mapper::Mapper0(crate::bus::mapper::mapper0::Mapper0 { bus: m.bus.after_take_nmi(), ..m }),
            Mapper::Mapper1(m) => Mapper::Mapper1(crate::bus::mapper::mapper1::Mapper1 { bus: m.bus.after_take_nmi(), ..m }),
            Mapper::Mapper2(m) => Mapper::Mapper2(crate::bus::mapper::mapper2::Mapper2 { bus: m.bus.after_take_nmi(), ..m }),
            Mapper::Mapper3(m) => Mapper::Mapper3(crate::bus::mapper::mapper3::Mapper3 { bus: m.bus.after_take_nmi(), ..m }),
            Mapper::Mapper4(m) => Mapper::Mapper4(crate::bus::mapper::mapper4::Mapper4 { bus: m.bus.after_take_nmi(), ..m }),
            Mapper::Mapper7(m) => Mapper::Mapper7(crate::bus::mapper::mapper7::Mapper7 { bus: m.bus.after_take_nmi(), ..m }),
            Mapper::MockBus(m) => Mapper::MockBus(crate::bus::mapper::mockbus::MockBus { bus: m.bus.after_take_nmi(), ..m }),
        }
    }

    /// The machine after the interrupt of the scanline counter was acknowledged.
    #[verifier::opaque]
    pub open spec fn after_acknowledge(self) -> Mapper {
        match self {
            Mapper::Mapper0(m) => Mapper::Mapper0(crate::bus::mapper::mapper0::Mapper0 { bus: m.bus.after_acknowledge(), ..m }),
            Mapper::Mapper1(m) => Mapper::Mapper1(crate::bus::mapper::mapper1::Mapper1 { bus: m.bus.after_acknowledge(), ..m }),
            Mapper::Mapper2(m) => Mapper::Mapper2(crate::bus::mapper::mapper2::Mapper2 { bus: m.bus.after_acknowledge(), ..m }),
            Mapper::Mapper3(m) => Mapper::Mapper3(crate::bus::mapper::mapper3::Mapper3 { bus: m.bus.after_acknowledge(), ..m }),
            Mapper::Mapper4(m) => Mapper::Mapper4(crate::bus::mapper::mapper4::Mapper4 { bus: m.bus.after_acknowledge(), ..m }),
            Mapper::Mapper7(m) => Mapper::Mapper7(crate::bus::mapper::mapper7::Mapper7 { bus: m.bus.after_acknowledge(), ..m }),
            Mapper::MockBus(m) => Mapper::MockBus(crate::bus::mapper::mockbus::MockBus { bus: m.bus.after_acknowledge(), ..m }),
        }
    }

    /// Writes a byte to sprite memory.
    pub fn write_oam(&mut self, data: u8)
        requires
            old(self).wf(),
        ensures
            *final(self) == old(self).after_oam_write(data),
            final(self).wf(),
    {
        proof {
            reveal(Mapper::after_oam_write);
            reveal(Mapper::wf);
        }
        match self {
            Mapper::Mapper0(m) => m.bus.write_oam(data),
            Mapper::Mapper1(m) => m.bus.write_oam(data),
            Mapper::Mapper2(m) => m.bus.write_oam(data),
            Mapper::Mapper3(m) => m.bus.write_oam(data),
            Mapper::Mapper4(m) => m.bus.write_oam(data),
            Mapper::Mapper7(m) => m.bus.write_oam(data),
            Mapper::MockBus(m) => m.bus.write_oam(data),
        }
    }

    /// Takes the request for a copy into sprite memory.
    pub fn take_dma(&mut self)
        requires
            old(self).wf(),
        ensures
            *final(self) == old(self).after_take_dma(),
            final(self).wf(),
    {
        proof {
            reveal(Mapper::after_take_dma);
            reveal(Mapper::wf);
        }
        match self {
            Mapper::Mapper0(m) => m.bus.take_dma(),
            Mapper::Mapper1(m) => m.bus.take_dma(),
            Mapper::Mapper2(m) => m.bus.take_dma(),
            Mapper::Mapper3(m) => m.bus.take_dma(),
            Mapper::Mapper4(m) => m.bus.take_dma(),
            Mapper::Mapper7(m) => m.bus.take_dma(),
            Mapper::MockBus(m) => m.bus.take_dma(),
        }
    }

    /// Takes one request for the non-maskable interrupt.
    pub fn take_nmi(&mut self)
        requires
            old(self).wf(),
        ensures
            *final(self) == old(self).after_take_nmi(),
            final(self).wf(),
    {
        proof {
            reveal(Mapper::after_take_nmi);
            reveal(Mapper::wf);
        }
        match self {
            Mapper::Mapper0(m) => m.bus.take_nmi(),
            Mapper::Mapper1(m) => m.bus.take_nmi(),
            Mapper::Mapper2(m) => m.bus.take_nmi(),
            Mapper::Mapper3(m) => m.bus.take_nmi(),
            Mapper::Mapper4(m) => m.bus.take_nmi(),
            Mapper::Mapper7(m) => m.bus.take_nmi(),
            Mapper::MockBus(m) => m.bus.take_nmi(),
        }
    }

    /// Acknowledges the interrupt of the scanline counter.
    pub fn acknowledge(&mut self)
        requires
            old(self).wf(),
        ensures
            *final(self) == old(self).after_acknowledge(),
            final(self).wf(),
    {
        proof {
            reveal(Mapper::after_acknowledge);
            reveal(Mapper::wf);
        }
        match self {
            Mapper::Mapper0(m) => m.bus.acknowledge(),
            Mapper::Mapper1(m) => m.bus.acknowledge(),
            Mapper::Mapper2(m) => m.bus.acknowledge(),
            Mapper::Mapper3(m) => m.bus.acknowledge(),
            Mapper::Mapper4(m) => m.bus.acknowledge(),
            Mapper::Mapper7(m) => m.bus.acknowledge(),
            Mapper::MockBus(m) => m.bus.acknowledge(),
        }
    }

    /// The machine with button `button` of the game pad held or let go.
    #[verifier::opaque]
    pub open spec fn after_button(self, button: Btn, down: bool) -> Mapper {
        self.with_bus(self.bus_of().after_button(button, down))
    }

    /// Changing the game pad keeps the machine well formed.
    pub proof fn lemma_pad_keeps_wf(self, pad: Controller)
        requires
            self.wf(),
            pad.wf(),
        ensures
            self.with_bus(Bus { controller1: pad, ..self.bus_of() }).wf(),
    {
        reveal(Mapper::wf);
        reveal(Bus::wf);
    }

    /// Holds a button of the game pad down or lets it go.
    pub fn set_button(&mut self, button: Btn, down: bool)
        requires
            old(self).wf(),
        ensures
            *final(self) == old(self).after_button(button, down),
            final(self).wf(),
    {
        proof {
            reveal(Bus::after_button);
            reveal(Mapper::after_button);
            let bus = self.bus_of();
            assert(bus.controller1.wf()) by {
                reveal(Mapper::wf);
                reveal(Bus::wf);
            }
            self.lemma_pad_keeps_wf(bus.after_button(button, down).controller1);
        }
        let i: usize = button.index();
        let pad: &mut Controller = self.controller();
        pad.buttons[i] = down;
    }

    /// The common bus, for reading.
    pub fn bus_ref(&self) -> (bus: &Bus)
        ensures
            *bus == self.bus_of(),
    {
        match self {
            Mapper::Mapper0(m) => &m.bus,
            Mapper::Mapper1(m) => &m.bus,
            Mapper::Mapper2(m) => &m.bus,
            Mapper::Mapper3(m) => &m.bus,
            Mapper::Mapper4(m) => &m.bus,
            Mapper::Mapper7(m) => &m.bus,
            Mapper::MockBus(m) => &m.bus,
        }
    }

    /// Whether the picture unit asks for the non-maskable interrupt.
    pub fn nmi_line(&self) -> (r: bool)
        ensures
            r == self.bus_of().nmi_line(),
    {
        let bus: &Bus = self.bus_ref();
        bus.ppu.regs.interrupts > 0
    }

    /// Whether the audio unit asks for an interrupt.
    pub fn apu_irq_line(&self) -> (r: bool)
        ensures
            r == self.bus_of().apu_irq_line(),
    {
        let bus: &Bus = self.bus_ref();
        bus.apu.interrupt || bus.apu.dmc.irq
    }

    /// Whether the scanline counter of the cartridge asks for an interrupt.
    pub fn mapper_irq_line(&self) -> (r: bool)
        ensures
            r == self.bus_of().mapper_irq_line(),
    {
        let bus: &Bus = self.bus_ref();
        match bus.ppu.mem.mmc3 {
            Some(m) => m.irq.occurred,
            None => false,
        }
    }

    /// The page that a write to 0x4014 asked to copy into sprite memory.
    pub fn dma_request(&self) -> (r: Option<u8>)
        ensures
            r == self.bus_of().dma_interrupt,
    {
        self.bus_ref().dma_interrupt
    }
}

} // verus!
