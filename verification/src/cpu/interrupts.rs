//! The software interrupt and the return from an interrupt, and the entry
//! into the three hardware interrupts.

use vstd::prelude::*;
use crate::cpu::status::Flag;
use crate::cpu::Cpu;
use crate::util::{add16, wrap_add16, wrap_sub8};

verus! {

impl Cpu {
    /// The machine after an interrupt was entered: `back` and the status
    /// byte `flags` are pushed, interrupts are disabled, and execution goes
    /// on at the address stored at `vector`.
    #[verifier::opaque]
    pub open spec fn after_entry(self, back: u16, flags: u8, vector: u16) -> Cpu {
        let s = self.after_push_word(back).after_push(flags);
        let f = (Cpu { p: s.p.with(Flag::InterruptDisable, true), ..s }).reading_word(vector);
        Cpu { pc: f.0, ..f.1 }
    }

    /// The machine after BRK: seven cycles, the address two bytes past the
    /// instruction and the flags with break set are pushed, the vector is
    /// at 0xFFFE.
    pub open spec fn after_brk(self) -> Cpu {
        let s = self.after_tick(7);
        s.after_entry(wrap_add16(self.pc, 1), s.p.pushed_by_instruction(), 0xFFFE)
    }

    /// The machine after RTI: six cycles, then the flags and the program
    /// counter are pulled.
    pub open spec fn after_rti(self) -> Cpu {
        let f = self.after_tick(6).pulling_flags();
        let w = (Cpu { p: f.0, ..f.1 }).pulling_word();
        Cpu { pc: w.0, ..w.1 }
    }

    /// The machine after the non-maskable interrupt was entered: fourteen
    /// cycles, the flags pushed with break clear, the vector at 0xFFFA.
    pub open spec fn after_nmi(self) -> Cpu {
        let s = self.after_tick(14);
        s.after_entry(self.pc, s.p.pushed_by_interrupt(), 0xFFFA)
    }

    /// The machine after an interrupt request: ignored while interrupts
    /// are disabled, else entered in seven cycles through the vector at 0xFFFE.
    pub open spec fn after_irq(self) -> Cpu {
        if self.p.has(Flag::InterruptDisable) {
            self
        } else {
            let s = self.after_tick(7);
            s.after_entry(self.pc, s.p.pushed_by_interrupt(), 0xFFFE)
        }
    }

    /// The machine after a reset: seven cycles, interrupts disabled, the
    /// stack pointer three lower, execution at the address stored at 0xFFFC.
    pub open spec fn after_reset(self) -> Cpu {
        let s = self.after_tick(7);
        let f = (Cpu {
            p: s.p.with(Flag::InterruptDisable, true),
            sp: wrap_sub8(s.sp, 3),
            ..s
        }).reading_word(0xFFFC);
        Cpu { pc: f.0, ..f.1 }
    }

    /// Enters an interrupt.
    pub fn enter(&mut self, back: u16, flags: u8, vector: u16)
        requires
            old(self).wf(),
        ensures
            *final(self) == old(self).after_entry(back, flags, vector),
            final(self).wf(),
            final(self).cyc == old(self).cyc,
    {
        proof {
            reveal(Cpu::after_entry);
        }
        self.push_u16(back);
        self.push(flags);
        self.p.set(Flag::InterruptDisable, true);
        let target: u16 = self.read_word(vector);
        self.pc = target;
    }

    /// BRK.
    pub fn brk(&mut self)
        requires
            old(self).fits(7),
        ensures
            *final(self) == old(self).after_brk(),
            final(self).wf(),
            final(self).cyc == old(self).cyc + 7,
    {
        let back: u16 = add16(self.pc, 1);
        self.tick(7);
        let flags: u8 = self.flags_for_push();
        self.enter(back, flags, 0xFFFE);
    }

    /// RTI.
    pub fn rti(&mut self)
        requires
            old(self).fits(6),
        ensures
            *final(self) == old(self).after_rti(),
            final(self).wf(),
            final(self).cyc == old(self).cyc + 6,
    {
        self.tick(6);
        let flags = self.pull_flags();
        self.p = flags;
        let back: u16 = self.pull_u16();
        self.pc = back;
    }

    /// Enters the non-maskable interrupt.
    pub fn handle_nmi(&mut self)
        requires
            old(self).fits(14),
        ensures
            *final(self) == old(self).after_nmi(),
            final(self).wf(),
            final(self).cyc == old(self).cyc + 14,
    {
        let back: u16 = self.pc;
        self.tick(7 + 7);
        let flags: u8 = self.flags_for_interrupt();
        self.enter(back, flags, 0xFFFA);
    }

    /// Enters an interrupt request, unless interrupts are disabled.
    pub fn handle_irq(&mut self)
        requires
            old(self).fits(7),
        ensures
            *final(self) == old(self).after_irq(),
            final(self).wf(),
            final(self).cyc == old(self).cyc + if old(self).p.has(Flag::InterruptDisable) {
                0int
            } else {
                7int
            },
    {
        if self.p.get(Flag::InterruptDisable) {
            return ;
        }
        let back: u16 = self.pc;
        self.tick(7);
        let flags: u8 = self.flags_for_interrupt();
        self.enter(back, flags, 0xFFFE);
    }

    /// Resets the processor.
    pub fn reset(&mut self)
        requires
            old(self).fits(7),
        ensures
            *final(self) == old(self).after_reset(),
            final(self).wf(),
            final(self).cyc == old(self).cyc + 7,
    {
        self.tick(7);
        self.p.set(Flag::InterruptDisable, true);
        self.sp = crate::util::sub8(self.sp, 3);
        let target: u16 = self.read_word(0xFFFC);
        self.pc = target;
    }
}

} // verus!
