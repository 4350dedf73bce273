//! One processor cycle of the machine below the processor: three dots of
//! the picture unit, one cycle of the audio unit, and the sample fetch of
//! the delta-modulation channel.

use vstd::prelude::*;
use crate::apu::dmc::Dmc;
use crate::apu::Apu;
use crate::bus::mapper::Mapper;
use crate::bus::Bus;

verus! {

impl Bus {
    /// The bus after three dots of the picture unit and one cycle of the
    /// audio unit.
    #[verifier::opaque]
    pub open spec fn after_units(self) -> Bus {
        Bus {
            ppu: self.ppu.after_tick().after_tick().after_tick(),
            apu: self.apu.after_tick(),
            ..self
        }
    }

    /// The bus after the byte `data` was handed to the sample channel and
    /// the processor stood still for one cycle of the units.
    #[verifier::opaque]
    pub open spec fn after_sample(self, data: u8) -> Bus {
        (Bus {
            apu: Apu { dmc: self.apu.dmc.after_fill_buffer(data), ..self.apu },
            ..self
        }).after_units()
    }

    /// Three dots of the picture unit and one cycle of the audio unit.
    pub fn tick_units(&mut self)
        requires
            old(self).wf(),
        ensures
            *final(self) == old(self).after_units(),
            final(self).wf(),
            final(self).prg_rom == old(self).prg_rom,
    {
        proof {
            reveal(Bus::wf);
        }
        proof {
            reveal(Bus::after_units);
        }
        self.ppu.tick();
        self.ppu.tick();
        self.ppu.tick();
        self.apu.tick();
    }

    /// Hands a fetched byte to the sample channel and lets a cycle pass.
    pub fn take_sample(&mut self, data: u8)
        requires
            old(self).wf(),
            old(self).apu.dmc.length > 0,
        ensures
            *final(self) == old(self).after_sample(data),
            final(self).wf(),
            final(self).prg_rom == old(self).prg_rom,
    {
        proof {
            reveal(Bus::wf);
        }
        proof {
            reveal(Bus::after_sample);
        }
        self.apu.dmc.fill_buffer(data);
        self.tick_units();
    }
}

impl Mapper {
    /// The machine after three dots of the picture unit and one cycle of
    /// the audio unit.
    #[verifier::opaque]
    pub open spec fn after_units(self) -> Mapper {
        match self {
            Mapper::Mapper0(m) => Mapper::Mapper0(crate::bus::mapper::mapper0::Mapper0 { bus: m.bus.after_units(), ..m }),
            Mapper::Mapper1(m) => Mapper::Mapper1(crate::bus::mapper::mapper1::Mapper1 { bus: m.bus.after_units(), ..m }),
            Mapper::Mapper2(m) => Mapper::Mapper2(crate::bus::mapper::mapper2::Mapper2 { bus: m.bus.after_units(), ..m }),
            Mapper::Mapper3(m) => Mapper::Mapper3(crate::bus::mapper::mapper3::Mapper3 { bus: m.bus.after_units(), ..m }),
            Mapper::Mapper4(m) => Mapper::Mapper4(crate::bus::mapper::mapper4::Mapper4 { bus: m.bus.after_units(), ..m }),
            Mapper::Mapper7(m) => Mapper::Mapper7(crate::bus::mapper::mapper7::Mapper7 { bus: m.bus.after_units(), ..m }),
            Mapper::MockBus(m) => Mapper::MockBus(crate::bus::mapper::mockbus::MockBus { bus: m.bus.after_units(), ..m }),
        }
    }

    /// The machine after the byte `data` was handed to the sample channel
    /// and the processor stood still for one cycle of the units; nothing
    /// happens when the channel has no bytes left to play.
    #[verifier::opaque]
    pub open spec fn after_sample(self, data: u8) -> Mapper {
        if self.bus_of().apu.dmc.length > 0 {
            match self {
                Mapper::Mapper0(m) => Mapper::Mapper0(crate::bus::mapper::mapper0::Mapper0 { bus: m.bus.after_sample(data), ..m }),
                Mapper::Mapper1(m) => Mapper::Mapper1(crate::bus::mapper::mapper1::Mapper1 { bus: m.bus.after_sample(data), ..m }),
                Mapper::Mapper2(m) => Mapper::Mapper2(crate::bus::mapper::mapper2::Mapper2 { bus: m.bus.after_sample(data), ..m }),
                Mapper::Mapper3(m) => Mapper::Mapper3(crate::bus::mapper::mapper3::Mapper3 { bus: m.bus.after_sample(data), ..m }),
                Mapper::Mapper4(m) => Mapper::Mapper4(crate::bus::mapper::mapper4::Mapper4 { bus: m.bus.after_sample(data), ..m }),
                Mapper::Mapper7(m) => Mapper::Mapper7(crate::bus::mapper::mapper7::Mapper7 { bus: m.bus.after_sample(data), ..m }),
                Mapper::MockBus(m) => Mapper::MockBus(crate::bus::mapper::mockbus::MockBus { bus: m.bus.after_sample(data), ..m }),
            }
        } else {
            self
        }
    }

    /// The machine after the sample channel was served: when it asks for a
    /// byte, the byte is read at its address and handed over, and the
    /// processor stands still for one more cycle of the units.
    #[verifier::opaque]
    pub open spec fn after_dmc_service(self) -> Mapper {
        let dmc = self.bus_of().apu.dmc;
        if dmc.wants_sample() {
            let f = self.reading(dmc.addr);
            f.1.after_sample(f.0)
        } else {
            self
        }
    }

    /// The machine one processor cycle later.
    pub open spec fn after_clock(self) -> Mapper {
        self.after_units().after_dmc_service()
    }

    /// The machine `n` processor cycles later.
    pub open spec fn after_clocks(self, n: nat) -> Mapper
        decreases n,
    {
        if n == 0 {
            self
        } else {
            self.after_clocks((n - 1) as nat).after_clock()
        }
    }

    /// Three dots of the picture unit and one cycle of the audio unit.
    pub fn tick_units(&mut self)
        requires
            old(self).wf(),
        ensures
            *final(self) == old(self).after_units(),
            final(self).wf(),
    {
        proof {
            reveal(Mapper::after_units);
            reveal(Mapper::wf);
        }
        match self {
            Mapper::Mapper0(m) => m.bus.tick_units(),
            Mapper::Mapper1(m) => m.bus.tick_units(),
            Mapper::Mapper2(m) => m.bus.tick_units(),
            Mapper::Mapper3(m) => m.bus.tick_units(),
            Mapper::Mapper4(m) => m.bus.tick_units(),
            Mapper::Mapper7(m) => m.bus.tick_units(),
            Mapper::MockBus(m) => m.bus.tick_units(),
        }
    }

    /// Hands a fetched byte to the sample channel and lets a cycle pass,
    /// if the channel still has bytes to play.
    pub fn take_sample(&mut self, data: u8)
        requires
            old(self).wf(),
        ensures
            *final(self) == old(self).after_sample(data),
            final(self).wf(),
    {
        proof {
            reveal(Mapper::after_sample);
            reveal(Mapper::wf);
        }
        match self {
            Mapper::Mapper0(m) => if m.bus.apu.dmc.length > 0 {
                m.bus.take_sample(data)
            },
            Mapper::Mapper1(m) => if m.bus.apu.dmc.length > 0 {
                m.bus.take_sample(data)
            },
            Mapper::Mapper2(m) => if m.bus.apu.dmc.length > 0 {
                m.bus.take_sample(data)
            },
            Mapper::Mapper3(m) => if m.bus.apu.dmc.length > 0 {
                m.bus.take_sample(data)
            },
            Mapper::Mapper4(m) => if m.bus.apu.dmc.length > 0 {
                m.bus.take_sample(data)
            },
            Mapper::Mapper7(m) => if m.bus.apu.dmc.length > 0 {
                m.bus.take_sample(data)
            },
            Mapper::MockBus(m) => if m.bus.apu.dmc.length > 0 {
                m.bus.take_sample(data)
            },
        }
    }

    /// The sample channel of the audio unit.
    pub fn dmc(&self) -> (d: Dmc)
        ensures
            d == self.bus_of().apu.dmc,
    {
        match self {
            Mapper::Mapper0(m) => m.bus.apu.dmc,
            Mapper::Mapper1(m) => m.bus.apu.dmc,
            Mapper::Mapper2(m) => m.bus.apu.dmc,
            Mapper::Mapper3(m) => m.bus.apu.dmc,
            Mapper::Mapper4(m) => m.bus.apu.dmc,
            Mapper::Mapper7(m) => m.bus.apu.dmc,
            Mapper::MockBus(m) => m.bus.apu.dmc,
        }
    }

    /// Serves the sample channel.
    pub fn service_dmc(&mut self)
        requires
            old(self).wf(),
        ensures
            *final(self) == old(self).after_dmc_service(),
            final(self).wf(),
    {
        proof {
            reveal(Mapper::after_dmc_service);
        }
        let dmc: Dmc = self.dmc();
        if dmc.buffer_should_be_filled() {
            let data: u8 = self.read_u8(dmc.addr);
            self.take_sample(data);
        }
    }

    /// One processor cycle of the machine.
    pub fn clock(&mut self)
        requires
            old(self).wf(),
        ensures
            *final(self) == old(self).after_clock(),
            final(self).wf(),
    {
        self.tick_units();
        self.service_dmc();
    }
}

} // verus!
