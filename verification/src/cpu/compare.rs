//! Comparisons of a register with memory, and the bit test.

use vstd::prelude::*;
use crate::cpu::addressing::read_cycles;
use crate::cpu::arithmetic::accumulator_operand;
use crate::cpu::status::Flag;
use crate::cpu::{AddressingMode, Cpu, Register};
use crate::util::bit::{bit8, bit_at, byte_value};
use crate::util::{bool_bit, wrap_sub8};

verus! {

/// Whether a comparison with an index register, or a store or load of one,
/// can use the mode among immediate, zero page and absolute.
pub open spec fn plain_operand(mode: AddressingMode) -> bool {
    mode == AddressingMode::Immediate || mode == AddressingMode::ZeroPage || mode
        == AddressingMode::Absolute
}

/// Whether the bit test can use the mode.
pub open spec fn tests_bits(mode: AddressingMode) -> bool {
    mode == AddressingMode::ZeroPage || mode == AddressingMode::Absolute
}

impl Cpu {
    /// The processor after register `reg` was compared with `mem`: zero and
    /// negative from the difference modulo 256, carry when `mem` is not
    /// larger than the register.
    pub open spec fn after_compare(self, reg: Register, mem: u8) -> Cpu {
        Cpu {
            p: self.p.with_zn(wrap_sub8(self.reg(reg), mem)).with(Flag::Carry, mem <= self.reg(reg)),
            ..self
        }
    }

    /// The machine after register `reg` was compared with the operand.
    pub open spec fn after_compare_with(self, reg: Register, addr: u16, mode: AddressingMode) -> Cpu {
        self.loading(mode, addr).1.after_compare(reg, self.loading(mode, addr).0)
    }

    /// The processor after the bits of `mem` were tested: zero when the
    /// accumulator has none of them, overflow and negative from bits 6 and 7.
    pub open spec fn after_bit_test(self, mem: u8) -> Cpu {
        Cpu {
            p: self.p.with(Flag::Zero, self.reg(Register::A) & mem == 0).with(
                Flag::Overflow,
                bit_at(byte_value(mem), 6),
            ).with(Flag::Negative, bit_at(byte_value(mem), 7)),
            ..self
        }
    }

    pub open spec fn after_bit(self, addr: u16, mode: AddressingMode) -> Cpu {
        self.loading(mode, addr).1.after_bit_test(self.loading(mode, addr).0)
    }

    /// Compares a register with a byte.
    pub fn compare(&mut self, reg: Register, mem: u8)
        ensures
            *final(self) == old(self).after_compare(reg, mem),
    {
        let val: u8 = self.regs[reg.index()];
        let result: u8 = crate::util::sub8(val, mem);
        self.p.set_zn(result);
        self.p.set(Flag::Carry, mem <= val);
    }

    /// Compares a register with the operand of a mode.
    pub fn compare_with(&mut self, reg: Register, addr: u16, mode: AddressingMode)
        requires
            old(self).fits(6),
            accumulator_operand(mode),
        ensures
            *final(self) == old(self).after_compare_with(reg, addr, mode),
            final(self).wf(),
            final(self).cyc == old(self).cyc + read_cycles(mode) + bool_bit(
                old(self).crossing(mode, addr),
            ),
    {
        let mem: u8 = self.load_operand(mode, addr);
        self.compare(reg, mem);
    }

    /// BIT: tests the bits of the operand against the accumulator.
    pub fn bit(&mut self, addr: u16, mode: AddressingMode)
        requires
            old(self).fits(6),
            tests_bits(mode),
        ensures
            *final(self) == old(self).after_bit(addr, mode),
            final(self).wf(),
            final(self).cyc == old(self).cyc + read_cycles(mode),
    {
        let mem: u8 = self.load_operand(mode, addr);
        let val: u8 = self.regs[0];
        self.p.set(Flag::Zero, (val & mem) == 0);
        self.p.set(Flag::Overflow, bit8(mem, 6));
        self.p.set(Flag::Negative, bit8(mem, 7));
    }

    /// CMP: compares the accumulator with the operand.
    pub fn cmp(&mut self, addr: u16, mode: AddressingMode)
        requires
            old(self).fits(6),
            accumulator_operand(mode),
        ensures
            *final(self) == old(self).after_compare_with(Register::A, addr, mode),
            final(self).wf(),
            final(self).cyc == old(self).cyc + read_cycles(mode) + bool_bit(
                old(self).crossing(mode, addr),
            ),
    {
        self.compare_with(Register::A, addr, mode)
    }

    /// CPX: compares X with the operand.
    pub fn cpx(&mut self, addr: u16, mode: AddressingMode)
        requires
            old(self).fits(6),
            plain_operand(mode),
        ensures
            *final(self) == old(self).after_compare_with(Register::X, addr, mode),
            final(self).wf(),
            final(self).cyc == old(self).cyc + read_cycles(mode),
    {
        self.compare_with(Register::X, addr, mode)
    }

    /// CPY: compares Y with the operand.
    pub fn cpy(&mut self, addr: u16, mode: AddressingMode)
        requires
            old(self).fits(6),
            plain_operand(mode),
        ensures
            *final(self) == old(self).after_compare_with(Register::Y, addr, mode),
            final(self).wf(),
            final(self).cyc == old(self).cyc + read_cycles(mode),
    {
        self.compare_with(Register::Y, addr, mode)
    }
}

} // verus!
