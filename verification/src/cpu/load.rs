//! Loads of the three registers.

use vstd::prelude::*;
use crate::cpu::addressing::read_cycles;
use crate::cpu::arithmetic::accumulator_operand;
use crate::cpu::{AddressingMode, Cpu, Register};
use crate::util::bool_bit;

verus! {

/// Whether LDX can use the mode.
pub open spec fn loads_x(mode: AddressingMode) -> bool {
    mode == AddressingMode::Immediate || mode == AddressingMode::ZeroPage || mode
        == AddressingMode::ZeroPageY || mode == AddressingMode::Absolute || mode
        == AddressingMode::AbsoluteY
}

/// Whether LDY can use the mode.
pub open spec fn loads_y(mode: AddressingMode) -> bool {
    mode == AddressingMode::Immediate || mode == AddressingMode::ZeroPage || mode
        == AddressingMode::ZeroPageX || mode == AddressingMode::Absolute || mode
        == AddressingMode::AbsoluteX
}

impl Cpu {
    /// The machine after register `reg` was loaded with the operand.
    pub open spec fn after_load(self, reg: Register, addr: u16, mode: AddressingMode) -> Cpu {
        self.loading(mode, addr).1.with_loaded(reg, self.loading(mode, addr).0)
    }

    /// Puts a value into a register and sets the zero and negative flags.
    pub fn load(&mut self, reg: Register, val: u8)
        ensures
            *final(self) == old(self).with_loaded(reg, val),
    {
        self.regs[reg.index()] = val;
        self.p.set_zn(val);
    }

    /// Loads a register with the operand of a mode.
    pub fn load_register(&mut self, reg: Register, addr: u16, mode: AddressingMode)
        requires
            old(self).fits(6),
            crate::cpu::addressing::reads_operand(mode),
        ensures
            *final(self) == old(self).after_load(reg, addr, mode),
            final(self).wf(),
            final(self).cyc == old(self).cyc + read_cycles(mode) + bool_bit(
                old(self).crossing(mode, addr),
            ),
    {
        let mem: u8 = self.load_operand(mode, addr);
        self.load(reg, mem);
    }

    /// LDA.
    pub fn lda(&mut self, addr: u16, mode: AddressingMode)
        requires
            old(self).fits(6),
            accumulator_operand(mode),
        ensures
            *final(self) == old(self).after_load(Register::A, addr, mode),
            final(self).wf(),
            final(self).cyc == old(self).cyc + read_cycles(mode) + bool_bit(
                old(self).crossing(mode, addr),
            ),
    {
        self.load_register(Register::A, addr, mode)
    }

    /// LDX.
    pub fn ldx(&mut self, addr: u16, mode: AddressingMode)
        requires
            old(self).fits(6),
            loads_x(mode),
        ensures
            *final(self) == old(self).after_load(Register::X, addr, mode),
            final(self).wf(),
            final(self).cyc == old(self).cyc + read_cycles(mode) + bool_bit(
                old(self).crossing(mode, addr),
            ),
    {
        self.load_register(Register::X, addr, mode)
    }

    /// LDY.
    pub fn ldy(&mut self, addr: u16, mode: AddressingMode)
        requires
            old(self).fits(6),
            loads_y(mode),
        ensures
            *final(self) == old(self).after_load(Register::Y, addr, mode),
            final(self).wf(),
            final(self).cyc == old(self).cyc + read_cycles(mode) + bool_bit(
                old(self).crossing(mode, addr),
            ),
    {
        self.load_register(Register::Y, addr, mode)
    }
}

} // verus!
