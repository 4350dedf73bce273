//! Pushes and pulls of the accumulator and of the flags.

use vstd::prelude::*;
use crate::cpu::status::Flag;
use crate::cpu::{Cpu, Register};

verus! {

impl Cpu {
    /// The machine after the accumulator was pushed.
    pub open spec fn after_pha(self) -> Cpu {
        let s = self.after_tick(3);
        s.after_push(s.reg(Register::A))
    }

    /// The machine after the flags were pushed, break and bit 5 set.
    pub open spec fn after_php(self) -> Cpu {
        let s = self.after_tick(3);
        s.after_push(s.p.pushed_by_instruction())
    }

    /// The machine after the accumulator was pulled.
    pub open spec fn after_pla(self) -> Cpu {
        let f = self.after_tick(4).pulling();
        f.1.with_loaded(Register::A, f.0)
    }

    /// The machine after the flags were pulled.
    pub open spec fn after_plp(self) -> Cpu {
        let f = self.after_tick(4).pulling_flags();
        Cpu { p: f.0, ..f.1 }
    }

    /// The status byte as an instruction pushes it.
    pub fn flags_for_push(&self) -> (b: u8)
        ensures
            b == self.p.pushed_by_instruction(),
    {
        let mut s = self.p;
        s.set(Flag::Break, true);
        s.set(Flag::Unused, true);
        s.to_byte()
    }

    /// The status byte as an interrupt pushes it.
    pub fn flags_for_interrupt(&self) -> (b: u8)
        ensures
            b == self.p.pushed_by_interrupt(),
    {
        let mut s = self.p;
        s.set(Flag::Break, false);
        s.set(Flag::Unused, true);
        s.to_byte()
    }

    /// PHA.
    pub fn pha(&mut self)
        requires
            old(self).fits(3),
        ensures
            *final(self) == old(self).after_pha(),
            final(self).wf(),
            final(self).cyc == old(self).cyc + 3,
    {
        self.tick(3);
        let val: u8 = self.regs[0];
        self.push(val);
    }

    /// PHP.
    pub fn php(&mut self)
        requires
            old(self).fits(3),
        ensures
            *final(self) == old(self).after_php(),
            final(self).wf(),
            final(self).cyc == old(self).cyc + 3,
    {
        self.tick(3);
        let flags: u8 = self.flags_for_push();
        self.push(flags);
    }

    /// PLA.
    pub fn pla(&mut self)
        requires
            old(self).fits(4),
        ensures
            *final(self) == old(self).after_pla(),
            final(self).wf(),
            final(self).cyc == old(self).cyc + 4,
    {
        self.tick(4);
        let val: u8 = self.pull();
        self.load(Register::A, val);
    }

    /// PLP.
    pub fn plp(&mut self)
        requires
            old(self).fits(4),
        ensures
            *final(self) == old(self).after_plp(),
            final(self).wf(),
            final(self).cyc == old(self).cyc + 4,
    {
        self.tick(4);
        let flags = self.pull_flags();
        self.p = flags;
    }
}

} // verus!
