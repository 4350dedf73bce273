//! Addition and subtraction with carry, and increments and decrements of
//! registers and memory.

use vstd::prelude::*;
use crate::cpu::addressing::{modifies_memory, modify_cycles, read_cycles};
use crate::cpu::bitwise::Modify;
use crate::cpu::status::Flag;
use crate::cpu::{AddressingMode, Cpu, Register};
use crate::util::{bool_bit, flag_bit, wrap_add8, wrap_sub8};

verus! {

/// The byte read as a two's-complement number.
pub open spec fn signed(x: u8) -> int {
    if x >= 128 {
        x - 256
    } else {
        x as int
    }
}

/// Whether an arithmetic or logic instruction on the accumulator can use the mode.
pub open spec fn accumulator_operand(mode: AddressingMode) -> bool {
    mode == AddressingMode::Immediate || mode == AddressingMode::ZeroPage || mode
        == AddressingMode::ZeroPageX || mode == AddressingMode::Absolute || mode
        == AddressingMode::AbsoluteX || mode == AddressingMode::AbsoluteY || mode
        == AddressingMode::IndexedIndirect || mode == AddressingMode::IndirectIndexed
}

impl Cpu {
    /// The processor after `mem` and the carry were added to the
    /// accumulator: the sum modulo 256, carry when the sum passes 255,
    /// overflow when the signed sum leaves -128..127.
    pub open spec fn after_addc(self, mem: u8) -> Cpu {
        let a = self.reg(Register::A);
        let c = bool_bit(self.p.has(Flag::Carry));
        let sum = a + mem + c;
        let result = (sum % 256) as u8;
        let signed_sum = signed(a) + signed(mem) + c;
        Cpu {
            p: self.p.with(Flag::Carry, sum > 255).with_zn(result).with(
                Flag::Overflow,
                signed_sum < -128 || signed_sum > 127,
            ),
            ..self.with_reg(Register::A, result)
        }
    }

    /// The processor after `mem` and the borrow were subtracted from the
    /// accumulator: the addition of the complement of `mem`.
    pub open spec fn after_subb(self, mem: u8) -> Cpu {
        self.after_addc((255 - mem) as u8)
    }

    pub open spec fn after_adc(self, addr: u16, mode: AddressingMode) -> Cpu {
        self.loading(mode, addr).1.after_addc(self.loading(mode, addr).0)
    }

    pub open spec fn after_sbc(self, addr: u16, mode: AddressingMode) -> Cpu {
        self.loading(mode, addr).1.after_subb(self.loading(mode, addr).0)
    }

    /// The processor after register `reg` moved by one, two cycles later.
    pub open spec fn after_step_reg(self, reg: Register, up: bool) -> Cpu {
        let s = self.after_tick(2);
        s.with_loaded(
            reg,
            if up {
                wrap_add8(s.reg(reg), 1)
            } else {
                wrap_sub8(s.reg(reg), 1)
            },
        )
    }

    /// Adds `mem` and the carry to the accumulator.
    pub fn addc(&mut self, mem: u8)
        ensures
            *final(self) == old(self).after_addc(mem),
    {
        let val: u8 = self.regs[0];
        let carry: u8 = flag_bit(self.p.get(Flag::Carry));
        let sum: u16 = val as u16 + mem as u16 + carry as u16;
        let result: u8 = (sum % 256) as u8;
        let sa: i16 = if val >= 128 {
            val as i16 - 256
        } else {
            val as i16
        };
        let sm: i16 = if mem >= 128 {
            mem as i16 - 256
        } else {
            mem as i16
        };
        let signed_sum: i16 = sa + sm + carry as i16;
        self.regs[0] = result;
        self.p.set(Flag::Carry, sum > 255);
        self.p.set_zn(result);
        self.p.set(Flag::Overflow, signed_sum < -128 || signed_sum > 127);
    }

    /// Subtracts `mem` and the borrow from the accumulator.
    pub fn subb(&mut self, mem: u8)
        ensures
            *final(self) == old(self).after_subb(mem),
    {
        self.addc(255 - mem);
    }

    /// ADC: adds the operand and the carry to the accumulator.
    pub fn adc(&mut self, addr: u16, mode: AddressingMode)
        requires
            old(self).fits(6),
            accumulator_operand(mode),
        ensures
            *final(self) == old(self).after_adc(addr, mode),
            final(self).wf(),
            final(self).cyc == old(self).cyc + read_cycles(mode) + bool_bit(
                old(self).crossing(mode, addr),
            ),
    {
        let mem: u8 = self.load_operand(mode, addr);
        self.addc(mem);
    }

    /// SBC: subtracts the operand and the borrow from the accumulator.
    pub fn sbc(&mut self, addr: u16, mode: AddressingMode)
        requires
            old(self).fits(6),
            accumulator_operand(mode),
        ensures
            *final(self) == old(self).after_sbc(addr, mode),
            final(self).wf(),
            final(self).cyc == old(self).cyc + read_cycles(mode) + bool_bit(
                old(self).crossing(mode, addr),
            ),
    {
        let mem: u8 = self.load_operand(mode, addr);
        self.subb(mem);
    }

    /// The byte one lower, with the zero and negative flags of the result.
    pub fn decrement(&mut self, val: u8) -> (r: u8)
        ensures
            (r, *final(self)) == old(self).modified(Modify::Dec, val),
    {
        let val: u8 = crate::util::sub8(val, 1);
        self.p.set_zn(val);
        val
    }

    /// The byte one higher, with the zero and negative flags of the result.
    pub fn increment(&mut self, val: u8) -> (r: u8)
        ensures
            (r, *final(self)) == old(self).modified(Modify::Inc, val),
    {
        let val: u8 = crate::util::add8(val, 1);
        self.p.set_zn(val);
        val
    }

    /// Moves a register down by one.
    pub fn dec_reg(&mut self, reg: Register)
        requires
            old(self).fits(2),
        ensures
            *final(self) == old(self).after_step_reg(reg, false),
            final(self).wf(),
            final(self).cyc == old(self).cyc + 2,
    {
        self.tick(2);
        let val: u8 = crate::util::sub8(self.regs[reg.index()], 1);
        self.regs[reg.index()] = val;
        self.p.set_zn(val);
    }

    /// Moves a register up by one.
    pub fn inc_reg(&mut self, reg: Register)
        requires
            old(self).fits(2),
        ensures
            *final(self) == old(self).after_step_reg(reg, true),
            final(self).wf(),
            final(self).cyc == old(self).cyc + 2,
    {
        self.tick(2);
        let val: u8 = crate::util::add8(self.regs[reg.index()], 1);
        self.regs[reg.index()] = val;
        self.p.set_zn(val);
    }

    /// DEX.
    pub fn dex(&mut self)
        requires
            old(self).fits(2),
        ensures
            *final(self) == old(self).after_step_reg(Register::X, false),
            final(self).wf(),
            final(self).cyc == old(self).cyc + 2,
    {
        self.dec_reg(Register::X)
    }

    /// DEY.
    pub fn dey(&mut self)
        requires
            old(self).fits(2),
        ensures
            *final(self) == old(self).after_step_reg(Register::Y, false),
            final(self).wf(),
            final(self).cyc == old(self).cyc + 2,
    {
        self.dec_reg(Register::Y)
    }

    /// INX.
    pub fn inx(&mut self)
        requires
            old(self).fits(2),
        ensures
            *final(self) == old(self).after_step_reg(Register::X, true),
            final(self).wf(),
            final(self).cyc == old(self).cyc + 2,
    {
        self.inc_reg(Register::X)
    }

    /// INY.
    pub fn iny(&mut self)
        requires
            old(self).fits(2),
        ensures
            *final(self) == old(self).after_step_reg(Register::Y, true),
            final(self).wf(),
            final(self).cyc == old(self).cyc + 2,
    {
        self.inc_reg(Register::Y)
    }

    /// DEC: moves a byte of memory down by one.
    pub fn dec(&mut self, addr: u16, mode: AddressingMode)
        requires
            old(self).fits(7),
            modifies_memory(mode),
        ensures
            *final(self) == old(self).after_modify(Modify::Dec, addr, mode),
            final(self).wf(),
            final(self).cyc == old(self).cyc + modify_cycles(mode),
    {
        self.modify(Modify::Dec, addr, mode)
    }

    /// INC: moves a byte of memory up by one.
    pub fn inc(&mut self, addr: u16, mode: AddressingMode)
        requires
            old(self).fits(7),
            modifies_memory(mode),
        ensures
            *final(self) == old(self).after_modify(Modify::Inc, addr, mode),
            final(self).wf(),
            final(self).cyc == old(self).cyc + modify_cycles(mode),
    {
        self.modify(Modify::Inc, addr, mode)
    }
}

} // verus!
