//! Setting and clearing single flags, and the status byte on the stack.

use vstd::prelude::*;
use crate::cpu::status::{Flag, Status};
use crate::cpu::Cpu;

verus! {

impl Cpu {
    /// The machine after `flag` was set to `value`, two cycles later.
    pub open spec fn after_flag(self, flag: Flag, value: bool) -> Cpu {
        self.after_tick(2).with_flag(flag, value)
    }

    /// The flags a pull from the stack gives, and the machine after the pull.
    pub open spec fn pulling_flags(self) -> (Status, Cpu) {
        (Status::pulled(self.pulling().0), self.pulling().1)
    }

    /// Clears a flag.
    pub fn clear_flag(&mut self, flag: Flag)
        requires
            old(self).fits(2),
        ensures
            *final(self) == old(self).after_flag(flag, false),
            final(self).wf(),
            final(self).cyc == old(self).cyc + 2,
    {
        self.tick(2);
        self.p.set(flag, false);
    }

    /// Sets a flag.
    pub fn set_flag(&mut self, flag: Flag)
        requires
            old(self).fits(2),
        ensures
            *final(self) == old(self).after_flag(flag, true),
            final(self).wf(),
            final(self).cyc == old(self).cyc + 2,
    {
        self.tick(2);
        self.p.set(flag, true);
    }

    /// CLC.
    pub fn clc(&mut self)
        requires
            old(self).fits(2),
        ensures
            *final(self) == old(self).after_flag(Flag::Carry, false),
            final(self).wf(),
            final(self).cyc == old(self).cyc + 2,
    {
        self.clear_flag(Flag::Carry)
    }

    /// CLD.
    pub fn cld(&mut self)
        requires
            old(self).fits(2),
        ensures
            *final(self) == old(self).after_flag(Flag::Decimal, false),
            final(self).wf(),
            final(self).cyc == old(self).cyc + 2,
    {
        self.clear_flag(Flag::Decimal)
    }

    /// CLI.
    pub fn cli(&mut self)
        requires
            old(self).fits(2),
        ensures
            *final(self) == old(self).after_flag(Flag::InterruptDisable, false),
            final(self).wf(),
            final(self).cyc == old(self).cyc + 2,
    {
        self.clear_flag(Flag::InterruptDisable)
    }

    /// CLV.
    pub fn clv(&mut self)
        requires
            old(self).fits(2),
        ensures
            *final(self) == old(self).after_flag(Flag::Overflow, false),
            final(self).wf(),
            final(self).cyc == old(self).cyc + 2,
    {
        self.clear_flag(Flag::Overflow)
    }

    /// SEC.
    pub fn sec(&mut self)
        requires
            old(self).fits(2),
        ensures
            *final(self) == old(self).after_flag(Flag::Carry, true),
            final(self).wf(),
            final(self).cyc == old(self).cyc + 2,
    {
        self.set_flag(Flag::Carry)
    }

    /// SED.
    pub fn sed(&mut self)
        requires
            old(self).fits(2),
        ensures
            *final(self) == old(self).after_flag(Flag::Decimal, true),
            final(self).wf(),
            final(self).cyc == old(self).cyc + 2,
    {
        self.set_flag(Flag::Decimal)
    }

    /// SEI.
    pub fn sei(&mut self)
        requires
            old(self).fits(2),
        ensures
            *final(self) == old(self).after_flag(Flag::InterruptDisable, true),
            final(self).wf(),
            final(self).cyc == old(self).cyc + 2,
    {
        self.set_flag(Flag::InterruptDisable)
    }

    /// The status byte.
    pub fn flags(&self) -> (b: u8)
        ensures
            b == self.p.encoded(),
    {
        self.p.to_byte()
    }

    /// Pulls the flags: bit 5 comes out set, the break flag clear.
    pub fn pull_flags(&mut self) -> (s: Status)
        requires
            old(self).wf(),
        ensures
            (s, *final(self)) == old(self).pulling_flags(),
            final(self).wf(),
            final(self).cyc == old(self).cyc,
    {
        let flags: u8 = self.pull();
        let mut s: Status = Status::from_byte(flags);
        s.set(Flag::Unused, true);
        s.set(Flag::Break, false);
        s
    }
}

} // verus!
