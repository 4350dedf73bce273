//! The processor: registers, memory access with its timing, addressing
//! modes, interrupts, and the decoding of instructions.

use vstd::prelude::*;
use crate::bus::mapper::mapper0::Mapper0;
use crate::bus::mapper::mapper1::Mapper1;
use crate::bus::mapper::mapper2::Mapper2;
use crate::bus::mapper::mapper3::Mapper3;
use crate::bus::mapper::mapper4::Mapper4;
use crate::bus::mapper::mapper7::Mapper7;
use crate::bus::mapper::mockbus::MockBus;
use crate::bus::mapper::Mapper;
use crate::cartridge::{Cartridge, MapperType};
use crate::cpu::status::{Flag, Status};
use crate::util::{
    add16, add8, lo8, hi8, low_byte, high_byte, make_word, widen, word_of, wrap_add16, wrap_add8,
    wrap_sub8, Config,
};

pub mod addressing;
pub mod arithmetic;
pub mod bitwise;
pub mod branch;
pub mod compare;
pub mod dma;
pub mod flags;
pub mod instruction;
pub mod interrupts;
pub mod load;
pub mod sprite_copy;
pub mod stack;
pub mod status;
pub mod store;
pub mod transfer;

verus! {

/// The three general registers.
#[derive(Clone, Copy, Debug, PartialEq, Eq, Structural)]
pub enum Register {
    A,
    X,
    Y,
}

impl Register {
    /// The place of the register in the register file.
    pub open spec fn position(self) -> int {
        match self {
            Register::A => 0,
            Register::X => 1,
            Register::Y => 2,
        }
    }

    /// Computes `position`.
    pub fn index(self) -> (i: usize)
        ensures
            i == self.position(),
    {
        match self {
            Register::A => 0,
            Register::X => 1,
            Register::Y => 2,
        }
    }
}

/// How an instruction finds its operand.
#[derive(Clone, Copy, Debug, PartialEq, Eq, Structural)]
pub enum AddressingMode {
    Absolute,
    AbsoluteX,
    AbsoluteY,
    Accumulator,
    Immediate,
    Implied,
    IndexedIndirect,
    Indirect,
    IndirectIndexed,
    Relative,
    ZeroPage,
    ZeroPageX,
    ZeroPageY,
}

/// The processor and, through the cartridge, the rest of the machine.
#[derive(Clone)]
pub struct Cpu {
    pub bus: Mapper,
    /// Cycles spent by instructions and interrupts since the count was last reset.
    pub cyc: usize,
    pub nmi_acknowledged: bool,
    pub pc: u16,
    pub p: Status,
    pub config: Config,
    pub regs: [u8; 3],
    pub sp: u8,
}

impl Cpu {
    /// The machine is well formed.
    pub open spec fn wf(self) -> bool {
        self.bus.wf()
    }

    /// The machine is well formed and the cycle counter has room for `n` more cycles.
    pub open spec fn fits(self, n: int) -> bool {
        self.wf() && self.cyc + n <= usize::MAX
    }

    /// The content of register `r`.
    pub open spec fn reg(self, r: Register) -> u8 {
        self.regs[r.position()]
    }

    /// The processor with `value` in register `r`.
    pub open spec fn with_reg(self, r: Register, value: u8) -> Cpu {
        Cpu { regs: vstd::array::spec_array_update(self.regs, r.position(), value), ..self }
    }

    /// The processor with `value` in register `r` and the zero and
    /// negative flags of `value`.
    pub open spec fn with_loaded(self, r: Register, value: u8) -> Cpu {
        Cpu { p: self.p.with_zn(value), ..self.with_reg(r, value) }
    }

    /// The processor with `flag` set to `value`.
    pub open spec fn with_flag(self, flag: Flag, value: bool) -> Cpu {
        Cpu { p: self.p.with(flag, value), ..self }
    }

    /// The machine `n` cycles later, the cycles counted.
    #[verifier::opaque]
    pub open spec fn after_tick(self, n: nat) -> Cpu {
        Cpu { bus: self.bus.after_clocks(n), cyc: (self.cyc + n) as usize, ..self }
    }

    /// What a read at `addr` returns and leaves behind.
    #[verifier::opaque]
    pub open spec fn reading(self, addr: u16) -> (u8, Cpu) {
        (self.bus.reading(addr).0, Cpu { bus: self.bus.reading(addr).1, ..self })
    }

    /// What a read of the word at `addr` returns and leaves behind.
    #[verifier::opaque]
    pub open spec fn reading_word(self, addr: u16) -> (u16, Cpu) {
        (self.bus.reading_word(addr).0, Cpu { bus: self.bus.reading_word(addr).1, ..self })
    }

    /// The machine after `data` was written at `addr`.
    #[verifier::opaque]
    pub open spec fn after_write(self, addr: u16, data: u8) -> Cpu {
        Cpu { bus: self.bus.after_write(addr, data), ..self }
    }

    /// The byte at the program counter, and the machine with the counter moved past it.
    #[verifier::opaque]
    pub open spec fn fetching_byte(self) -> (u8, Cpu) {
        let f = self.reading(self.pc);
        (f.0, Cpu { pc: wrap_add16(self.pc, 1), ..f.1 })
    }

    /// The word at the program counter, and the machine with the counter moved past it.
    #[verifier::opaque]
    pub open spec fn fetching_word(self) -> (u16, Cpu) {
        let f = self.reading_word(self.pc);
        (f.0, Cpu { pc: wrap_add16(self.pc, 2), ..f.1 })
    }

    /// The machine after `data` was pushed: written at the stack pointer in
    /// page 1, the pointer then one lower.
    #[verifier::opaque]
    pub open spec fn after_push(self, data: u8) -> Cpu {
        Cpu {
            sp: wrap_sub8(self.sp, 1),
            ..self.after_write((0x100 + self.sp) as u16, data)
        }
    }

    /// The machine after the word `data` was pushed, high byte first.
    pub open spec fn after_push_word(self, data: u16) -> Cpu {
        self.after_push(high_byte(data)).after_push(low_byte(data))
    }

    /// The byte pulled from the stack and the machine after: the pointer
    /// one higher, the byte read from there.
    #[verifier::opaque]
    pub open spec fn pulling(self) -> (u8, Cpu) {
        let sp = wrap_add8(self.sp, 1);
        (Cpu { sp, ..self }).reading((0x100 + sp) as u16)
    }

    /// The word pulled from the stack, low byte first, and the machine after.
    pub open spec fn pulling_word(self) -> (u16, Cpu) {
        let l = self.pulling();
        let h = l.1.pulling();
        (word_of(l.0, h.0), h.1)
    }

    /// The machine at power-up for `cartridge`: the mapper of its kind, or
    /// flat RAM when `mock` is set; `sram` fills the work RAM of a
    /// cartridge that has one.  All registers are zero.
    pub fn new(config: &Config, cartridge: Cartridge, sram: [u8; 0x2000], clockrate: u32, mock: bool) -> (c:
        Cpu)
        requires
            cartridge.fits_slot(mock),
        ensures
            c.wf(),
            c.cyc == 0,
            c.pc == 0,
            c.sp == 0,
            !c.nmi_acknowledged,
            c.regs@ == seq![0u8, 0u8, 0u8],
            c.p.flags@ == seq![false, false, false, false, false, true, false, false],
            c.config.filename == config.filename,
            c.bus.fault_of() is None,
            mock ==> c.bus is MockBus,
            !mock ==> match cartridge.mapper_type {
                MapperType::Nrom => c.bus is Mapper0,
                MapperType::MMC1 => c.bus matches Mapper::Mapper1(m) && m.sram == sram,
                MapperType::Uxrom => c.bus is Mapper2,
                MapperType::Cnrom => c.bus is Mapper3,
                MapperType::MMC3 => c.bus matches Mapper::Mapper4(m) && m.sram == sram,
                MapperType::Axrom => c.bus is Mapper7,
            },
            c.bus.bus_of().ppu.is_initial(
                cartridge.chr_rom->0,
                cartridge.mirroring,
                if mock {
                    MapperType::Nrom
                } else {
                    cartridge.mapper_type
                },
            ),
    {
        proof {
            reveal(Mapper::wf);
        }
        let mapper_type = cartridge.mapper_type;
        let bus: Mapper = if mock {
            Mapper::MockBus(MockBus::new(cartridge, clockrate))
        } else {
            match mapper_type {
                MapperType::Nrom => Mapper::Mapper0(Mapper0::new(cartridge, clockrate)),
                MapperType::MMC1 => Mapper::Mapper1(Mapper1::new(cartridge, config, sram, clockrate)),
                MapperType::Uxrom => Mapper::Mapper2(Mapper2::new(cartridge, clockrate)),
                MapperType::Cnrom => Mapper::Mapper3(Mapper3::new(cartridge, clockrate)),
                MapperType::MMC3 => Mapper::Mapper4(Mapper4::new(cartridge, config, sram, clockrate)),
                MapperType::Axrom => Mapper::Mapper7(Mapper7::new(cartridge, clockrate)),
            }
        };
        Self::with_bus(config, bus)
    }

    /// A processor over `bus`, all registers zero.
    pub fn with_bus(config: &Config, bus: Mapper) -> (c: Cpu)
        ensures
            c.bus == bus,
            c.cyc == 0,
            c.pc == 0,
            c.sp == 0,
            !c.nmi_acknowledged,
            c.regs@ == seq![0u8, 0u8, 0u8],
            c.p.flags@ == seq![false, false, false, false, false, true, false, false],
            c.config.filename == config.filename,
    {
        Cpu {
            config: Config { filename: config.filename.clone() },
            bus,
            cyc: 0,
            nmi_acknowledged: false,
            pc: 0,
            p: Status::new(),
            regs: [0, 0, 0],
            sp: 0,
        }
    }

    /// Lets `cycles` processor cycles pass: in each the picture unit runs
    /// three dots and the audio unit one cycle, and the sample channel is served.
    pub fn tick(&mut self, cycles: usize)
        requires
            old(self).fits(cycles as int),
        ensures
            *final(self) == old(self).after_tick(cycles as nat),
            final(self).wf(),
            final(self).cyc == old(self).cyc + cycles,
    {
        proof {
            reveal(Cpu::after_tick);
        }
        let mut i: usize = 0;
        while i < cycles
            invariant
                i <= cycles,
                self.bus.wf(),
                self.bus == old(self).bus.after_clocks(i as nat),
                self.cyc == old(self).cyc,
                self.nmi_acknowledged == old(self).nmi_acknowledged,
                self.pc == old(self).pc,
                self.p == old(self).p,
                self.config == old(self).config,
                self.regs == old(self).regs,
                self.sp == old(self).sp,
            decreases cycles - i,
        {
            self.bus.clock();
            i = i + 1;
        }
        self.cyc = self.cyc + cycles;
    }

    /// Reads a byte from the bus.
    pub fn read(&mut self, addr: u16) -> (r: u8)
        requires
            old(self).wf(),
        ensures
            (r, *final(self)) == old(self).reading(addr),
            final(self).wf(),
            final(self).cyc == old(self).cyc,
    {
        proof {
            reveal(Cpu::reading);
        }
        self.bus.read_u8(addr)
    }

    /// Reads a word from the bus.
    pub fn read_word(&mut self, addr: u16) -> (r: u16)
        requires
            old(self).wf(),
        ensures
            (r, *final(self)) == old(self).reading_word(addr),
            final(self).wf(),
            final(self).cyc == old(self).cyc,
    {
        proof {
            reveal(Cpu::reading_word);
        }
        self.bus.read_u16(addr)
    }

    /// Writes a byte to the bus.
    pub fn write(&mut self, addr: u16, data: u8)
        requires
            old(self).wf(),
        ensures
            *final(self) == old(self).after_write(addr, data),
            final(self).wf(),
            final(self).cyc == old(self).cyc,
    {
        proof {
            reveal(Cpu::after_write);
        }
        self.bus.write_u8(addr, data)
    }

    /// Reads the byte at the program counter and moves the counter on.
    pub fn read_u8(&mut self) -> (r: u8)
        requires
            old(self).wf(),
        ensures
            (r, *final(self)) == old(self).fetching_byte(),
            final(self).wf(),
            final(self).cyc == old(self).cyc,
    {
        proof {
            reveal(Cpu::fetching_byte);
        }
        let pc: u16 = self.pc;
        let byte: u8 = self.read(pc);
        self.pc = add16(pc, 1);
        byte
    }

    /// Reads the word at the program counter and moves the counter on.
    pub fn read_u16(&mut self) -> (r: u16)
        requires
            old(self).wf(),
        ensures
            (r, *final(self)) == old(self).fetching_word(),
            final(self).wf(),
            final(self).cyc == old(self).cyc,
    {
        proof {
            reveal(Cpu::fetching_word);
        }
        let pc: u16 = self.pc;
        let word: u16 = self.read_word(pc);
        self.pc = add16(pc, 2);
        word
    }

    /// Reads the instruction byte.
    pub fn read_opcode(&mut self) -> (r: u8)
        requires
            old(self).wf(),
        ensures
            (r, *final(self)) == old(self).fetching_byte(),
            final(self).wf(),
            final(self).cyc == old(self).cyc,
    {
        self.read_u8()
    }

    /// Reads a one-byte operand.
    pub fn read_byte_operand(&mut self) -> (r: u8)
        requires
            old(self).wf(),
        ensures
            (r, *final(self)) == old(self).fetching_byte(),
            final(self).wf(),
            final(self).cyc == old(self).cyc,
    {
        self.read_u8()
    }

    /// Reads a two-byte operand.
    pub fn read_word_operand(&mut self) -> (r: u16)
        requires
            old(self).wf(),
        ensures
            (r, *final(self)) == old(self).fetching_word(),
            final(self).wf(),
            final(self).cyc == old(self).cyc,
    {
        self.read_u16()
    }

    /// Pushes a byte.
    pub fn push(&mut self, data: u8)
        requires
            old(self).wf(),
        ensures
            *final(self) == old(self).after_push(data),
            final(self).wf(),
            final(self).cyc == old(self).cyc,
    {
        proof {
            reveal(Cpu::after_push);
        }
        let sp: u16 = widen(self.sp);
        let lowered: u8 = crate::util::sub8(self.sp, 1);
        self.write(0x100 + sp, data);
        self.sp = lowered;
    }

    /// Pushes a word, high byte first.
    pub fn push_u16(&mut self, data: u16)
        requires
            old(self).wf(),
        ensures
            *final(self) == old(self).after_push_word(data),
            final(self).wf(),
            final(self).cyc == old(self).cyc,
    {
        let low: u8 = lo8(data);
        let high: u8 = hi8(data);
        self.push(high);
        self.push(low);
    }

    /// Pulls a byte.
    pub fn pull(&mut self) -> (r: u8)
        requires
            old(self).wf(),
        ensures
            (r, *final(self)) == old(self).pulling(),
            final(self).wf(),
            final(self).cyc == old(self).cyc,
    {
        proof {
            reveal(Cpu::pulling);
        }
        self.sp = add8(self.sp, 1);
        let sp: u16 = widen(self.sp);
        self.read(0x100 + sp)
    }

    /// Pulls a word, low byte first.
    pub fn pull_u16(&mut self) -> (r: u16)
        requires
            old(self).wf(),
        ensures
            (r, *final(self)) == old(self).pulling_word(),
            final(self).wf(),
            final(self).cyc == old(self).cyc,
    {
        let low: u8 = self.pull();
        let high: u8 = self.pull();
        make_word(low, high)
    }

    /// Two idle cycles.
    pub fn nop(&mut self)
        requires
            old(self).fits(2),
        ensures
            *final(self) == old(self).after_tick(2),
            final(self).wf(),
            final(self).cyc == old(self).cyc + 2,
    {
        self.tick(2);
    }
}

} // verus!
