//! Branches, jumps and subroutine calls.

use vstd::prelude::*;
use crate::cpu::status::Flag;
use crate::cpu::{AddressingMode, Cpu};
use crate::util::{add16, page_crossed, sub16, wrap_add16, wrap_sub16};

verus! {

/// The address `offset` bytes from `pc`, modulo 65536.
pub open spec fn branch_target(pc: u16, offset: i8) -> u16 {
    ((pc + offset + 0x1_0000) % 0x1_0000) as u16
}

/// The cycles of a branch: 2 when not taken, 3 when taken, 4 when the
/// target lies on another page than the instruction that follows.
pub open spec fn branch_cycles(pc: u16, taken: bool, offset: i8) -> int {
    if !taken {
        2
    } else if page_crossed(pc, offset as int) {
        4
    } else {
        3
    }
}

/// Whether a jump can use the mode.
pub open spec fn jumps(mode: AddressingMode) -> bool {
    mode == AddressingMode::Absolute || mode == AddressingMode::Indirect
}

/// The cycles of a jump.
pub open spec fn jump_cycles(mode: AddressingMode) -> int {
    if mode == AddressingMode::Indirect {
        5
    } else {
        3
    }
}

impl Cpu {
    /// The machine after a branch that is taken when `condition` holds.
    pub open spec fn after_branch(self, condition: bool, offset: i8) -> Cpu {
        let s = self.after_tick(branch_cycles(self.pc, condition, offset) as nat);
        if condition {
            Cpu { pc: branch_target(self.pc, offset), ..s }
        } else {
            s
        }
    }

    /// The machine after a branch on `flag` having the value `wanted`.
    pub open spec fn after_branch_on(self, flag: Flag, wanted: bool, offset: i8) -> Cpu {
        self.after_branch(self.p.has(flag) == wanted, offset)
    }

    /// The machine after a jump.
    #[verifier::opaque]
    pub open spec fn after_jmp(self, addr: u16, mode: AddressingMode) -> Cpu {
        if mode == AddressingMode::Indirect {
            let f = self.after_tick(5).reading_ind(addr);
            Cpu { pc: f.0, ..f.1 }
        } else {
            Cpu { pc: addr, ..self.after_tick(3) }
        }
    }

    /// The machine after a subroutine call: the address of the last byte
    /// of the call is pushed.
    pub open spec fn after_jsr(self, addr: u16) -> Cpu {
        Cpu { pc: addr, ..self.after_tick(6).after_push_word(wrap_sub16(self.pc, 1)) }
    }

    /// The machine after a return from a subroutine: execution goes on one
    /// byte past the pulled address.
    pub open spec fn after_rts(self) -> Cpu {
        let f = self.after_tick(6).pulling_word();
        Cpu { pc: wrap_add16(f.0, 1), ..f.1 }
    }

    /// Branches when `condition` holds.
    pub fn branch(&mut self, condition: bool, offset: i8)
        requires
            old(self).fits(4),
        ensures
            *final(self) == old(self).after_branch(condition, offset),
            final(self).wf(),
            final(self).cyc == old(self).cyc + branch_cycles(old(self).pc, condition, offset),
    {
        let pc: i32 = self.pc as i32;
        let offset: i32 = offset as i32;
        let target: u16 = ((pc + offset + 0x1_0000) % 0x1_0000) as u16;
        if condition {
            if crate::util::crosses_page(self.pc, offset) {
                self.tick(4);
                self.pc = target;
            } else {
                self.tick(3);
                self.pc = target;
            }
        } else {
            self.tick(2);
        }
    }

    /// Branches when `flag` is set.
    pub fn branch_if(&mut self, flag: Flag, offset: i8)
        requires
            old(self).fits(4),
        ensures
            *final(self) == old(self).after_branch_on(flag, true, offset),
            final(self).wf(),
            final(self).cyc == old(self).cyc + branch_cycles(
                old(self).pc,
                old(self).p.has(flag),
                offset,
            ),
    {
        let condition: bool = self.p.get(flag);
        self.branch(condition, offset)
    }

    /// Branches when `flag` is clear.
    pub fn branch_if_not(&mut self, flag: Flag, offset: i8)
        requires
            old(self).fits(4),
        ensures
            *final(self) == old(self).after_branch_on(flag, false, offset),
            final(self).wf(),
            final(self).cyc == old(self).cyc + branch_cycles(
                old(self).pc,
                !old(self).p.has(flag),
                offset,
            ),
    {
        let condition: bool = !self.p.get(flag);
        self.branch(condition, offset)
    }

    /// BPL.
    pub fn bpl(&mut self, offset: i8)
        requires
            old(self).fits(4),
        ensures
            *final(self) == old(self).after_branch_on(Flag::Negative, false, offset),
            final(self).wf(),
            final(self).cyc == old(self).cyc + branch_cycles(
                old(self).pc,
                !old(self).p.has(Flag::Negative),
                offset,
            ),
    {
        self.branch_if_not(Flag::Negative, offset)
    }

    /// BCC.
    pub fn bcc(&mut self, offset: i8)
        requires
            old(self).fits(4),
        ensures
            *final(self) == old(self).after_branch_on(Flag::Carry, false, offset),
            final(self).wf(),
            final(self).cyc == old(self).cyc + branch_cycles(
                old(self).pc,
                !old(self).p.has(Flag::Carry),
                offset,
            ),
    {
        self.branch_if_not(Flag::Carry, offset)
    }

    /// BCS.
    pub fn bcs(&mut self, offset: i8)
        requires
            old(self).fits(4),
        ensures
            *final(self) == old(self).after_branch_on(Flag::Carry, true, offset),
            final(self).wf(),
            final(self).cyc == old(self).cyc + branch_cycles(
                old(self).pc,
                old(self).p.has(Flag::Carry),
                offset,
            ),
    {
        self.branch_if(Flag::Carry, offset)
    }

    /// BEQ.
    pub fn beq(&mut self, offset: i8)
        requires
            old(self).fits(4),
        ensures
            *final(self) == old(self).after_branch_on(Flag::Zero, true, offset),
            final(self).wf(),
            final(self).cyc == old(self).cyc + branch_cycles(
                old(self).pc,
                old(self).p.has(Flag::Zero),
                offset,
            ),
    {
        self.branch_if(Flag::Zero, offset)
    }

    /// BMI.
    pub fn bmi(&mut self, offset: i8)
        requires
            old(self).fits(4),
        ensures
            *final(self) == old(self).after_branch_on(Flag::Negative, true, offset),
            final(self).wf(),
            final(self).cyc == old(self).cyc + branch_cycles(
                old(self).pc,
                old(self).p.has(Flag::Negative),
                offset,
            ),
    {
        self.branch_if(Flag::Negative, offset)
    }

    /// BNE.
    pub fn bne(&mut self, offset: i8)
        requires
            old(self).fits(4),
        ensures
            *final(self) == old(self).after_branch_on(Flag::Zero, false, offset),
            final(self).wf(),
            final(self).cyc == old(self).cyc + branch_cycles(
                old(self).pc,
                !old(self).p.has(Flag::Zero),
                offset,
            ),
    {
        self.branch_if_not(Flag::Zero, offset)
    }

    /// BVC.
    pub fn bvc(&mut self, offset: i8)
        requires
            old(self).fits(4),
        ensures
            *final(self) == old(self).after_branch_on(Flag::Overflow, false, offset),
            final(self).wf(),
            final(self).cyc == old(self).cyc + branch_cycles(
                old(self).pc,
                !old(self).p.has(Flag::Overflow),
                offset,
            ),
    {
        self.branch_if_not(Flag::Overflow, offset)
    }

    /// BVS.
    pub fn bvs(&mut self, offset: i8)
        requires
            old(self).fits(4),
        ensures
            *final(self) == old(self).after_branch_on(Flag::Overflow, true, offset),
            final(self).wf(),
            final(self).cyc == old(self).cyc + branch_cycles(
                old(self).pc,
                old(self).p.has(Flag::Overflow),
                offset,
            ),
    {
        self.branch_if(Flag::Overflow, offset)
    }

    /// JMP.
    pub fn jmp(&mut self, addr: u16, mode: AddressingMode)
        requires
            old(self).fits(5),
            jumps(mode),
        ensures
            *final(self) == old(self).after_jmp(addr, mode),
            final(self).wf(),
            final(self).cyc == old(self).cyc + jump_cycles(mode),
    {
        proof {
            reveal(Cpu::after_jmp);
        }
        if mode == AddressingMode::Indirect {
            self.tick(5);
            let target: u16 = self.read_ind(addr);
            self.pc = target;
        } else {
            self.tick(3);
            self.pc = addr;
        }
    }

    /// JSR.
    pub fn jsr(&mut self, addr: u16)
        requires
            old(self).fits(6),
        ensures
            *final(self) == old(self).after_jsr(addr),
            final(self).wf(),
            final(self).cyc == old(self).cyc + 6,
    {
        let back: u16 = sub16(self.pc, 1);
        self.tick(6);
        self.push_u16(back);
        self.pc = addr;
    }

    /// RTS.
    pub fn rts(&mut self)
        requires
            old(self).fits(6),
        ensures
            *final(self) == old(self).after_rts(),
            final(self).wf(),
            final(self).cyc == old(self).cyc + 6,
    {
        self.tick(6);
        let back: u16 = self.pull_u16();
        self.pc = add16(back, 1);
    }
}

} // verus!
