//! The logic instructions on the accumulator, and the shifts and rotations
//! of the accumulator or of a byte of memory.

use vstd::prelude::*;
use crate::cpu::addressing::{modifies_memory, modify_cycles, read_cycles};
use crate::cpu::arithmetic::accumulator_operand;
use crate::cpu::status::Flag;
use crate::cpu::{AddressingMode, Cpu, Register};
use crate::util::{bool_bit, flag_bit, wrap_add8, wrap_sub8};

verus! {

/// The operations that turn one byte into another and set flags.
#[derive(Clone, Copy, Debug, PartialEq, Eq, Structural)]
pub enum Modify {
    Asl,
    Lsr,
    Rol,
    Ror,
    Inc,
    Dec,
}

/// Whether a shift or rotation can use the mode.
pub open spec fn shifts(mode: AddressingMode) -> bool {
    mode == AddressingMode::Accumulator || modifies_memory(mode)
}

/// The cycles of a shift or rotation.
pub open spec fn shift_cycles(mode: AddressingMode) -> int {
    if mode == AddressingMode::Accumulator {
        2
    } else {
        modify_cycles(mode)
    }
}

impl Cpu {
    /// The result of an operation on `val`, and the processor with the
    /// flags of the result.  Shifts and rotations move the bit that leaves
    /// into the carry; rotations move the carry in at the other end.
    pub open spec fn modified(self, op: Modify, val: u8) -> (u8, Cpu) {
        let c = bool_bit(self.p.has(Flag::Carry));
        match op {
            Modify::Asl => {
                let r = ((val * 2) % 256) as u8;
                (r, Cpu { p: self.p.with(Flag::Carry, val >= 128).with_zn(r), ..self })
            },
            Modify::Lsr => {
                let r = (val / 2) as u8;
                (r, Cpu { p: self.p.with(Flag::Carry, val % 2 == 1).with_zn(r), ..self })
            },
            Modify::Rol => {
                let r = ((val * 2) % 256 + c) as u8;
                (r, Cpu { p: self.p.with(Flag::Carry, val >= 128).with_zn(r), ..self })
            },
            Modify::Ror => {
                let r = (val / 2 + c * 128) as u8;
                (r, Cpu { p: self.p.with(Flag::Carry, val % 2 == 1).with_zn(r), ..self })
            },
            Modify::Inc => {
                let r = wrap_add8(val, 1);
                (r, Cpu { p: self.p.with_zn(r), ..self })
            },
            Modify::Dec => {
                let r = wrap_sub8(val, 1);
                (r, Cpu { p: self.p.with_zn(r), ..self })
            },
        }
    }

    /// The machine after an operation on the accumulator or on the byte of
    /// memory that the mode addresses.
    #[verifier::opaque]
    pub open spec fn after_modify(self, op: Modify, addr: u16, mode: AddressingMode) -> Cpu {
        if mode == AddressingMode::Accumulator {
            let s = self.after_tick(2);
            let r = s.modified(op, s.reg(Register::A));
            r.1.with_reg(Register::A, r.0)
        } else {
            let f = self.modify_reading(mode, addr);
            let r = f.1.modified(op, f.0);
            r.1.after_write(self.modify_target(mode, addr), r.0)
        }
    }

    /// The processor after the accumulator was combined with `mem` into `result`.
    pub open spec fn after_logic(self, result: u8) -> Cpu {
        self.with_loaded(Register::A, result)
    }

    pub open spec fn after_and(self, addr: u16, mode: AddressingMode) -> Cpu {
        let f = self.loading(mode, addr);
        f.1.after_logic(f.1.reg(Register::A) & f.0)
    }

    pub open spec fn after_eor(self, addr: u16, mode: AddressingMode) -> Cpu {
        let f = self.loading(mode, addr);
        f.1.after_logic(f.1.reg(Register::A) ^ f.0)
    }

    pub open spec fn after_ora(self, addr: u16, mode: AddressingMode) -> Cpu {
        let f = self.loading(mode, addr);
        f.1.after_logic(f.1.reg(Register::A) | f.0)
    }

    /// Shifts left; bit 7 goes to the carry.
    pub fn shl(&mut self, val: u8) -> (r: u8)
        ensures
            (r, *final(self)) == old(self).modified(Modify::Asl, val),
    {
        let r: u8 = ((val as u16 * 2) % 256) as u8;
        self.p.set(Flag::Carry, val >= 128);
        self.p.set_zn(r);
        r
    }

    /// Shifts right; bit 0 goes to the carry.
    pub fn shr(&mut self, val: u8) -> (r: u8)
        ensures
            (r, *final(self)) == old(self).modified(Modify::Lsr, val),
    {
        let r: u8 = val / 2;
        self.p.set(Flag::Carry, val % 2 == 1);
        self.p.set_zn(r);
        r
    }

    /// Rotates left through the carry.
    pub fn lrotate(&mut self, val: u8) -> (r: u8)
        ensures
            (r, *final(self)) == old(self).modified(Modify::Rol, val),
    {
        let carry: u8 = flag_bit(self.p.get(Flag::Carry));
        let r: u8 = ((val as u16 * 2) % 256) as u8 + carry;
        self.p.set(Flag::Carry, val >= 128);
        self.p.set_zn(r);
        r
    }

    /// Rotates right through the carry.
    pub fn rrotate(&mut self, val: u8) -> (r: u8)
        ensures
            (r, *final(self)) == old(self).modified(Modify::Ror, val),
    {
        let carry: u8 = flag_bit(self.p.get(Flag::Carry));
        let r: u8 = val / 2 + carry * 128;
        self.p.set(Flag::Carry, val % 2 == 1);
        self.p.set_zn(r);
        r
    }

    /// Applies an operation to a byte and sets the flags.
    pub fn apply(&mut self, op: Modify, val: u8) -> (r: u8)
        ensures
            (r, *final(self)) == old(self).modified(op, val),
    {
        match op {
            Modify::Asl => self.shl(val),
            Modify::Lsr => self.shr(val),
            Modify::Rol => self.lrotate(val),
            Modify::Ror => self.rrotate(val),
            Modify::Inc => self.increment(val),
            Modify::Dec => self.decrement(val),
        }
    }

    /// Applies an operation to the accumulator or to a byte of memory.
    pub fn modify(&mut self, op: Modify, addr: u16, mode: AddressingMode)
        requires
            old(self).fits(7),
            shifts(mode),
        ensures
            *final(self) == old(self).after_modify(op, addr, mode),
            final(self).wf(),
            final(self).cyc == old(self).cyc + shift_cycles(mode),
    {
        proof {
            reveal(Cpu::after_modify);
        }
        if mode == AddressingMode::Accumulator {
            self.tick(2);
            let val: u8 = self.regs[0];
            let val: u8 = self.apply(op, val);
            self.regs[0] = val;
        } else {
            let target: u16 = self.target_of(mode, addr);
            let val: u8 = self.modify_read(mode, addr);
            let val: u8 = self.apply(op, val);
            self.write(target, val);
        }
    }

    /// Sets the accumulator and its flags to `result`.
    pub fn set_accumulator(&mut self, result: u8)
        ensures
            *final(self) == old(self).after_logic(result),
    {
        self.regs[0] = result;
        self.p.set_zn(result);
    }

    /// Ands `mem` into the accumulator.
    pub fn bitand(&mut self, mem: u8)
        ensures
            *final(self) == old(self).after_logic(old(self).reg(Register::A) & mem),
    {
        let val: u8 = self.regs[0];
        self.set_accumulator(val & mem);
    }

    /// Exclusive-ors `mem` into the accumulator.
    pub fn xor(&mut self, mem: u8)
        ensures
            *final(self) == old(self).after_logic(old(self).reg(Register::A) ^ mem),
    {
        let val: u8 = self.regs[0];
        self.set_accumulator(val ^ mem);
    }

    /// Ors `mem` into the accumulator.
    pub fn or(&mut self, mem: u8)
        ensures
            *final(self) == old(self).after_logic(old(self).reg(Register::A) | mem),
    {
        let val: u8 = self.regs[0];
        self.set_accumulator(val | mem);
    }

    /// AND.
    pub fn and(&mut self, addr: u16, mode: AddressingMode)
        requires
            old(self).fits(6),
            accumulator_operand(mode),
        ensures
            *final(self) == old(self).after_and(addr, mode),
            final(self).wf(),
            final(self).cyc == old(self).cyc + read_cycles(mode) + bool_bit(
                old(self).crossing(mode, addr),
            ),
    {
        let mem: u8 = self.load_operand(mode, addr);
        self.bitand(mem);
    }

    /// EOR.
    pub fn eor(&mut self, addr: u16, mode: AddressingMode)
        requires
            old(self).fits(6),
            accumulator_operand(mode),
        ensures
            *final(self) == old(self).after_eor(addr, mode),
            final(self).wf(),
            final(self).cyc == old(self).cyc + read_cycles(mode) + bool_bit(
                old(self).crossing(mode, addr),
            ),
    {
        let mem: u8 = self.load_operand(mode, addr);
        self.xor(mem);
    }

    /// ORA.
    pub fn ora(&mut self, addr: u16, mode: AddressingMode)
        requires
            old(self).fits(6),
            accumulator_operand(mode),
        ensures
            *final(self) == old(self).after_ora(addr, mode),
            final(self).wf(),
            final(self).cyc == old(self).cyc + read_cycles(mode) + bool_bit(
                old(self).crossing(mode, addr),
            ),
    {
        let mem: u8 = self.load_operand(mode, addr);
        self.or(mem);
    }

    /// ASL.
    pub fn asl(&mut self, addr: u16, mode: AddressingMode)
        requires
            old(self).fits(7),
            shifts(mode),
        ensures
            *final(self) == old(self).after_modify(Modify::Asl, addr, mode),
            final(self).wf(),
            final(self).cyc == old(self).cyc + shift_cycles(mode),
    {
        self.modify(Modify::Asl, addr, mode)
    }

    /// LSR.
    pub fn lsr(&mut self, addr: u16, mode: AddressingMode)
        requires
            old(self).fits(7),
            shifts(mode),
        ensures
            *final(self) == old(self).after_modify(Modify::Lsr, addr, mode),
            final(self).wf(),
            final(self).cyc == old(self).cyc + shift_cycles(mode),
    {
        self.modify(Modify::Lsr, addr, mode)
    }

    /// ROL.
    pub fn rol(&mut self, addr: u16, mode: AddressingMode)
        requires
            old(self).fits(7),
            shifts(mode),
        ensures
            *final(self) == old(self).after_modify(Modify::Rol, addr, mode),
            final(self).wf(),
            final(self).cyc == old(self).cyc + shift_cycles(mode),
    {
        self.modify(Modify::Rol, addr, mode)
    }

    /// ROR.
    pub fn ror(&mut self, addr: u16, mode: AddressingMode)
        requires
            old(self).fits(7),
            shifts(mode),
        ensures
            *final(self) == old(self).after_modify(Modify::Ror, addr, mode),
            final(self).wf(),
            final(self).cyc == old(self).cyc + shift_cycles(mode),
    {
        self.modify(Modify::Ror, addr, mode)
    }
}

} // verus!
