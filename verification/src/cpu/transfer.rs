//! Transfers between registers and the stack pointer.

use vstd::prelude::*;
use crate::cpu::{Cpu, Register};

verus! {

impl Cpu {
    /// The machine after the content of `from` was copied to `to`, two
    /// cycles later, with the zero and negative flags of the value.
    pub open spec fn after_transfer(self, from: Register, to: Register) -> Cpu {
        let s = self.after_tick(2);
        s.with_loaded(to, s.reg(from))
    }

    /// The machine after the stack pointer was copied to X.
    pub open spec fn after_tsx(self) -> Cpu {
        let s = self.after_tick(2);
        s.with_loaded(Register::X, s.sp)
    }

    /// The machine after X was copied to the stack pointer; no flag changes.
    pub open spec fn after_txs(self) -> Cpu {
        let s = self.after_tick(2);
        Cpu { sp: s.reg(Register::X), ..s }
    }

    /// Copies one register to another.
    pub fn transfer(&mut self, reg1: Register, reg2: Register)
        requires
            old(self).fits(2),
        ensures
            *final(self) == old(self).after_transfer(reg1, reg2),
            final(self).wf(),
            final(self).cyc == old(self).cyc + 2,
    {
        self.tick(2);
        let val: u8 = self.regs[reg1.index()];
        self.load(reg2, val);
    }

    /// TAX.
    pub fn tax(&mut self)
        requires
            old(self).fits(2),
        ensures
            *final(self) == old(self).after_transfer(Register::A, Register::X),
            final(self).wf(),
            final(self).cyc == old(self).cyc + 2,
    {
        self.transfer(Register::A, Register::X)
    }

    /// TAY.
    pub fn tay(&mut self)
        requires
            old(self).fits(2),
        ensures
            *final(self) == old(self).after_transfer(Register::A, Register::Y),
            final(self).wf(),
            final(self).cyc == old(self).cyc + 2,
    {
        self.transfer(Register::A, Register::Y)
    }

    /// TYA.
    pub fn tya(&mut self)
        requires
            old(self).fits(2),
        ensures
            *final(self) == old(self).after_transfer(Register::Y, Register::A),
            final(self).wf(),
            final(self).cyc == old(self).cyc + 2,
    {
        self.transfer(Register::Y, Register::A)
    }

    /// TXA.
    pub fn txa(&mut self)
        requires
            old(self).fits(2),
        ensures
            *final(self) == old(self).after_transfer(Register::X, Register::A),
            final(self).wf(),
            final(self).cyc == old(self).cyc + 2,
    {
        self.transfer(Register::X, Register::A)
    }

    /// TSX.
    pub fn tsx(&mut self)
        requires
            old(self).fits(2),
        ensures
            *final(self) == old(self).after_tsx(),
            final(self).wf(),
            final(self).cyc == old(self).cyc + 2,
    {
        self.tick(2);
        let val: u8 = self.sp;
        self.load(Register::X, val);
    }

    /// TXS.
    pub fn txs(&mut self)
        requires
            old(self).fits(2),
        ensures
            *final(self) == old(self).after_txs(),
            final(self).wf(),
            final(self).cyc == old(self).cyc + 2,
    {
        self.tick(2);
        self.sp = self.regs[1];
    }
}

} // verus!
