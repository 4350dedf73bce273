//! Effective addresses, and the three ways an instruction uses memory:
//! reading an operand, storing a register, and modifying a byte in place.
//! Each way has its own timing per addressing mode.

use vstd::prelude::*;
use crate::cpu::{AddressingMode, Cpu, Register};
use crate::util::{
    add16, add8, low_byte, lo8, make_word, page_crossed, widen, word_of, wrap_add16, wrap_add8,
};

verus! {

/// The address of the high byte of an indirect jump target: the address
/// after `addr`, but on the same page.
pub open spec fn same_page_successor(addr: u16) -> u16 {
    ((addr / 256) * 256 + (addr % 256 + 1) % 256) as u16
}

/// The index register an addressing mode uses, if any.
pub open spec fn index_register(mode: AddressingMode) -> Option<Register> {
    match mode {
        AddressingMode::ZeroPageX | AddressingMode::AbsoluteX | AddressingMode::IndexedIndirect =>
            Some(Register::X),
        AddressingMode::ZeroPageY | AddressingMode::AbsoluteY | AddressingMode::IndirectIndexed =>
            Some(Register::Y),
        _ => None,
    }
}

/// Whether an instruction that reads its operand can use the mode.
pub open spec fn reads_operand(mode: AddressingMode) -> bool {
    mode != AddressingMode::Accumulator && mode != AddressingMode::Implied && mode
        != AddressingMode::Indirect && mode != AddressingMode::Relative
}

/// Whether an instruction that stores a register can use the mode.
pub open spec fn stores_register(mode: AddressingMode) -> bool {
    reads_operand(mode) && mode != AddressingMode::Immediate
}

/// Whether an instruction that modifies memory in place can use the mode.
pub open spec fn modifies_memory(mode: AddressingMode) -> bool {
    mode == AddressingMode::ZeroPage || mode == AddressingMode::ZeroPageX || mode
        == AddressingMode::Absolute || mode == AddressingMode::AbsoluteX
}

/// The cycles an operand read takes without page crossing.
pub open spec fn read_cycles(mode: AddressingMode) -> int {
    match mode {
        AddressingMode::Immediate => 2,
        AddressingMode::ZeroPage => 3,
        AddressingMode::ZeroPageX | AddressingMode::ZeroPageY => 4,
        AddressingMode::Absolute | AddressingMode::AbsoluteX | AddressingMode::AbsoluteY => 4,
        AddressingMode::IndexedIndirect => 6,
        AddressingMode::IndirectIndexed => 5,
        _ => 0,
    }
}

/// The cycles a register store takes.
pub open spec fn store_cycles(mode: AddressingMode) -> int {
    match mode {
        AddressingMode::ZeroPage => 3,
        AddressingMode::ZeroPageX | AddressingMode::ZeroPageY => 4,
        AddressingMode::Absolute => 4,
        AddressingMode::AbsoluteX | AddressingMode::AbsoluteY => 5,
        AddressingMode::IndexedIndirect | AddressingMode::IndirectIndexed => 6,
        _ => 0,
    }
}

/// The cycles a modification in place takes.
pub open spec fn modify_cycles(mode: AddressingMode) -> int {
    match mode {
        AddressingMode::ZeroPage => 5,
        AddressingMode::ZeroPageX | AddressingMode::Absolute => 6,
        AddressingMode::AbsoluteX => 7,
        _ => 0,
    }
}

impl Cpu {
    /// The content of the index register of a mode, 0 for a mode without one.
    pub open spec fn index_of(self, mode: AddressingMode) -> u8 {
        match index_register(mode) {
            Some(r) => self.reg(r),
            None => 0,
        }
    }

    /// The pointer that `(addr, X)` addressing reads from the zero page, and
    /// the machine after the two reads.
    #[verifier::opaque]
    pub open spec fn pointing_idx_ind(self, addr: u8, idx: u8) -> (u16, Cpu) {
        let l = self.reading(wrap_add8(addr, idx) as u16);
        let h = l.1.reading(wrap_add8(wrap_add8(addr, 1), idx) as u16);
        (word_of(l.0, h.0), h.1)
    }

    /// The address that `(addr), Y` addressing forms, whether forming it
    /// carried into the high byte, and the machine after the two reads.
    #[verifier::opaque]
    pub open spec fn pointing_ind_idx(self, addr: u8, idx: u8) -> ((u16, bool), Cpu) {
        let l = self.reading(addr as u16);
        let h = l.1.reading(wrap_add8(addr, 1) as u16);
        ((wrap_add16(word_of(l.0, h.0), idx as u16), l.0 + idx > 255), h.1)
    }

    /// The word an indirect jump reads at `addr`; the high byte comes from
    /// the same page even when the low byte is the last of the page.
    #[verifier::opaque]
    pub open spec fn reading_ind(self, addr: u16) -> (u16, Cpu) {
        let l = self.reading(addr);
        let h = l.1.reading(same_page_successor(addr));
        (word_of(l.0, h.0), h.1)
    }

    /// The byte that `(addr), Y` addressing reads; a carry into the high
    /// byte of the address costs one cycle before the read.
    #[verifier::opaque]
    pub open spec fn reading_ind_idx(self, addr: u8, idx: u8) -> (u8, Cpu) {
        let p = self.pointing_ind_idx(addr, idx);
        if p.0.1 {
            p.1.after_tick(1).reading(p.0.0)
        } else {
            p.1.reading(p.0.0)
        }
    }

    /// Whether reading the operand crosses a page: for the absolute indexed
    /// modes when adding the index carries, for `(addr), Y` when adding Y
    /// to the pointer read from the zero page carries.
    pub open spec fn crossing(self, mode: AddressingMode, operand: u16) -> bool {
        match mode {
            AddressingMode::AbsoluteX | AddressingMode::AbsoluteY => page_crossed(
                operand,
                self.index_of(mode) as int,
            ),
            AddressingMode::IndirectIndexed => self.after_tick(4).pointing_ind_idx(
                low_byte(operand),
                self.index_of(mode),
            ).0.1,
            _ => false,
        }
    }

    /// The operand an instruction reads in a mode, and the machine after
    /// the cycles and bus accesses of the read.
    #[verifier::opaque]
    pub open spec fn loading(self, mode: AddressingMode, operand: u16) -> (u8, Cpu) {
        let idx = self.index_of(mode);
        match mode {
            AddressingMode::Immediate => (low_byte(operand), self.after_tick(2)),
            AddressingMode::ZeroPage => {
                let f = self.after_tick(2).reading(low_byte(operand) as u16);
                (f.0, f.1.after_tick(1))
            },
            AddressingMode::ZeroPageX | AddressingMode::ZeroPageY => {
                let f = self.after_tick(3).reading(wrap_add8(low_byte(operand), idx) as u16);
                (f.0, f.1.after_tick(1))
            },
            AddressingMode::Absolute => {
                let f = self.after_tick(3).reading(operand);
                (f.0, f.1.after_tick(1))
            },
            AddressingMode::AbsoluteX | AddressingMode::AbsoluteY => {
                let s = if page_crossed(operand, idx as int) {
                    self.after_tick(3).after_tick(1)
                } else {
                    self.after_tick(3)
                };
                let f = s.reading(wrap_add16(operand, idx as u16));
                (f.0, f.1.after_tick(1))
            },
            AddressingMode::IndexedIndirect => {
                let p = self.after_tick(5).pointing_idx_ind(low_byte(operand), idx);
                let f = p.1.reading(p.0);
                (f.0, f.1.after_tick(1))
            },
            AddressingMode::IndirectIndexed => {
                let f = self.after_tick(4).reading_ind_idx(low_byte(operand), idx);
                (f.0, f.1.after_tick(1))
            },
            _ => (0, self),
        }
    }

    /// The machine after the byte `value` was stored in a mode.
    #[verifier::opaque]
    pub open spec fn after_store(self, value: u8, mode: AddressingMode, operand: u16) -> Cpu {
        let idx = self.index_of(mode);
        match mode {
            AddressingMode::ZeroPage => self.after_tick(2).after_write(
                low_byte(operand) as u16,
                value,
            ).after_tick(1),
            AddressingMode::ZeroPageX | AddressingMode::ZeroPageY => self.after_tick(4).after_write(
                wrap_add8(low_byte(operand), idx) as u16,
                value,
            ),
            AddressingMode::Absolute => self.after_tick(3).after_write(operand, value).after_tick(
                1,
            ),
            AddressingMode::AbsoluteX | AddressingMode::AbsoluteY => self.after_tick(
                4,
            ).after_write(wrap_add16(operand, idx as u16), value).after_tick(1),
            AddressingMode::IndexedIndirect => {
                let p = self.after_tick(5).pointing_idx_ind(low_byte(operand), idx);
                p.1.after_write(p.0, value).after_tick(1)
            },
            AddressingMode::IndirectIndexed => {
                let p = self.after_tick(5).pointing_ind_idx(low_byte(operand), idx);
                p.1.after_write(p.0.0, value).after_tick(1)
            },
            _ => self,
        }
    }

    /// The address a modification in place works on.
    pub open spec fn modify_target(self, mode: AddressingMode, operand: u16) -> u16 {
        match mode {
            AddressingMode::ZeroPage => low_byte(operand) as u16,
            AddressingMode::ZeroPageX => wrap_add8(low_byte(operand), self.reg(Register::X)) as u16,
            AddressingMode::AbsoluteX => wrap_add16(operand, self.reg(Register::X) as u16),
            _ => operand,
        }
    }

    /// The byte a modification in place reads, and the machine after the
    /// cycles of the instruction and the read.
    #[verifier::opaque]
    pub open spec fn modify_reading(self, mode: AddressingMode, operand: u16) -> (u8, Cpu) {
        self.after_tick(modify_cycles(mode) as nat).reading(self.modify_target(mode, operand))
    }

    /// Zero-page address.
    pub fn ea_zp(&self, addr: u8) -> (r: u16)
        ensures
            r == addr,
    {
        widen(addr)
    }

    /// Zero-page address plus index, within the zero page.
    pub fn ea_zp_idx(&self, addr: u8, idx: u8) -> (r: u16)
        ensures
            r == wrap_add8(addr, idx),
    {
        widen(add8(addr, idx))
    }

    /// Absolute address.
    pub fn ea_abs(&self, addr: u16) -> (r: u16)
        ensures
            r == addr,
    {
        addr
    }

    /// Absolute address plus index, modulo 65536.
    pub fn ea_abs_idx(&self, addr: u16, idx: u8) -> (r: u16)
        ensures
            r == wrap_add16(addr, idx as u16),
    {
        add16(addr, widen(idx))
    }

    /// The two addresses an indirect jump reads.
    pub fn ea_ind(&self, addr: u16) -> (r: (u16, u16))
        ensures
            r.0 == addr,
            r.1 == same_page_successor(addr),
    {
        let l: u8 = lo8(addr);
        let h: u8 = crate::util::hi8(addr);
        (make_word(l, h), make_word(add8(l, 1), h))
    }

    /// Reads the pointer of `(addr, X)` addressing.
    pub fn ea_idx_ind(&mut self, addr: u8, idx: u8) -> (r: u16)
        requires
            old(self).wf(),
        ensures
            (r, *final(self)) == old(self).pointing_idx_ind(addr, idx),
            final(self).wf(),
            final(self).cyc == old(self).cyc,
    {
        proof {
            reveal(Cpu::pointing_idx_ind);
        }
        let l: u8 = self.read(widen(add8(addr, idx)));
        let h: u8 = self.read(widen(add8(add8(addr, 1), idx)));
        make_word(l, h)
    }

    /// Forms the address of `(addr), Y` addressing.
    pub fn ea_ind_idx(&mut self, addr: u8, idx: u8) -> (r: (u16, bool))
        requires
            old(self).wf(),
        ensures
            (r, *final(self)) == old(self).pointing_ind_idx(addr, idx),
            final(self).wf(),
            final(self).cyc == old(self).cyc,
    {
        proof {
            reveal(Cpu::pointing_ind_idx);
        }
        let l: u8 = self.read(widen(addr));
        let h: u8 = self.read(widen(add8(addr, 1)));
        let target: u16 = make_word(l, h);
        let cycle_penalty: bool = widen(l) + widen(idx) > 255;
        (add16(target, widen(idx)), cycle_penalty)
    }

    /// Reads a byte of the zero page.
    pub fn read_zp(&mut self, addr: u8) -> (r: u8)
        requires
            old(self).wf(),
        ensures
            (r, *final(self)) == old(self).reading(addr as u16),
            final(self).wf(),
            final(self).cyc == old(self).cyc,
    {
        self.read(widen(addr))
    }

    /// Reads a byte of the zero page at `addr` plus index.
    pub fn read_zp_idx(&mut self, addr: u8, idx: u8) -> (r: u8)
        requires
            old(self).wf(),
        ensures
            (r, *final(self)) == old(self).reading(wrap_add8(addr, idx) as u16),
            final(self).wf(),
            final(self).cyc == old(self).cyc,
    {
        self.read(widen(add8(addr, idx)))
    }

    /// Reads the byte at `addr`.
    pub fn read_abs(&mut self, addr: u16) -> (r: u8)
        requires
            old(self).wf(),
        ensures
            (r, *final(self)) == old(self).reading(addr),
            final(self).wf(),
            final(self).cyc == old(self).cyc,
    {
        self.read(addr)
    }

    /// Reads the byte at `addr` plus index.
    pub fn read_abs_idx(&mut self, addr: u16, idx: u8) -> (r: u8)
        requires
            old(self).wf(),
        ensures
            (r, *final(self)) == old(self).reading(wrap_add16(addr, idx as u16)),
            final(self).wf(),
            final(self).cyc == old(self).cyc,
    {
        self.read(add16(addr, widen(idx)))
    }

    /// Reads the target of an indirect jump.
    pub fn read_ind(&mut self, addr: u16) -> (r: u16)
        requires
            old(self).wf(),
        ensures
            (r, *final(self)) == old(self).reading_ind(addr),
            final(self).wf(),
            final(self).cyc == old(self).cyc,
    {
        proof {
            reveal(Cpu::reading_ind);
        }
        let (adl, adh) = self.ea_ind(addr);
        let l: u8 = self.read(adl);
        let h: u8 = self.read(adh);
        make_word(l, h)
    }

    /// Reads the byte of `(addr, X)` addressing.
    pub fn read_idx_ind(&mut self, addr: u8, idx: u8) -> (r: u8)
        requires
            old(self).wf(),
        ensures
            (r, *final(self)) == old(self).pointing_idx_ind(addr, idx).1.reading(
                old(self).pointing_idx_ind(addr, idx).0,
            ),
            final(self).wf(),
            final(self).cyc == old(self).cyc,
    {
        let target: u16 = self.ea_idx_ind(addr, idx);
        self.read(target)
    }

    /// Reads the byte of `(addr), Y` addressing.
    pub fn read_ind_idx(&mut self, addr: u8, idx: u8) -> (r: u8)
        requires
            old(self).fits(1),
        ensures
            (r, *final(self)) == old(self).reading_ind_idx(addr, idx),
            final(self).wf(),
            final(self).cyc == old(self).cyc + if old(self).pointing_ind_idx(addr, idx).0.1 {
                1int
            } else {
                0int
            },
    {
        proof {
            reveal(Cpu::reading_ind_idx);
        }
        let (target, cycle_penalty) = self.ea_ind_idx(addr, idx);
        if cycle_penalty {
            self.tick(1);
            self.read(target)
        } else {
            self.read(target)
        }
    }

    /// The content of the index register of a mode.
    pub fn index_value(&self, mode: AddressingMode) -> (r: u8)
        ensures
            r == self.index_of(mode),
    {
        match mode {
            AddressingMode::ZeroPageX | AddressingMode::AbsoluteX | AddressingMode::IndexedIndirect =>
                self.regs[1],
            AddressingMode::ZeroPageY | AddressingMode::AbsoluteY | AddressingMode::IndirectIndexed =>
                self.regs[2],
            _ => 0,
        }
    }

    /// Reads the operand of an instruction in a mode.
    pub fn load_operand(&mut self, mode: AddressingMode, operand: u16) -> (r: u8)
        requires
            old(self).fits(6),
            reads_operand(mode),
        ensures
            (r, *final(self)) == old(self).loading(mode, operand),
            final(self).wf(),
            final(self).cyc == old(self).cyc + read_cycles(mode) + if old(self).crossing(
                mode,
                operand,
            ) {
                1int
            } else {
                0int
            },
    {
        proof {
            reveal(Cpu::loading);
        }
        let idx: u8 = self.index_value(mode);
        let low: u8 = lo8(operand);
        match mode {
            AddressingMode::Immediate => {
                self.tick(2);
                low
            },
            AddressingMode::ZeroPage => {
                self.tick(2);
                let mem: u8 = self.read_zp(low);
                self.tick(1);
                mem
            },
            AddressingMode::ZeroPageX | AddressingMode::ZeroPageY => {
                self.tick(3);
                let mem: u8 = self.read_zp_idx(low, idx);
                self.tick(1);
                mem
            },
            AddressingMode::Absolute => {
                self.tick(3);
                let mem: u8 = self.read_abs(operand);
                self.tick(1);
                mem
            },
            AddressingMode::AbsoluteX | AddressingMode::AbsoluteY => {
                if crate::util::crosses_page(operand, idx as i32) {
                    self.tick(3);
                    self.tick(1);
                    let mem: u8 = self.read_abs_idx(operand, idx);
                    self.tick(1);
                    mem
                } else {
                    self.tick(3);
                    let mem: u8 = self.read_abs_idx(operand, idx);
                    self.tick(1);
                    mem
                }
            },
            AddressingMode::IndexedIndirect => {
                self.tick(5);
                let mem: u8 = self.read_idx_ind(low, idx);
                self.tick(1);
                mem
            },
            AddressingMode::IndirectIndexed => {
                self.tick(4);
                let mem: u8 = self.read_ind_idx(low, idx);
                self.tick(1);
                mem
            },
            _ => 0,
        }
    }

    /// Stores a byte in a mode.
    pub fn store_value(&mut self, value: u8, mode: AddressingMode, operand: u16)
        requires
            old(self).fits(6),
            stores_register(mode),
        ensures
            *final(self) == old(self).after_store(value, mode, operand),
            final(self).wf(),
            final(self).cyc == old(self).cyc + store_cycles(mode),
    {
        proof {
            reveal(Cpu::after_store);
        }
        let idx: u8 = self.index_value(mode);
        let low: u8 = lo8(operand);
        match mode {
            AddressingMode::ZeroPage => {
                self.tick(2);
                self.write(widen(low), value);
                self.tick(1);
            },
            AddressingMode::ZeroPageX | AddressingMode::ZeroPageY => {
                self.tick(4);
                self.write(widen(add8(low, idx)), value);
            },
            AddressingMode::Absolute => {
                self.tick(3);
                self.write(operand, value);
                self.tick(1);
            },
            AddressingMode::AbsoluteX | AddressingMode::AbsoluteY => {
                self.tick(4);
                self.write(add16(operand, widen(idx)), value);
                self.tick(1);
            },
            AddressingMode::IndexedIndirect => {
                self.tick(5);
                let target: u16 = self.ea_idx_ind(low, idx);
                self.write(target, value);
                self.tick(1);
            },
            AddressingMode::IndirectIndexed => {
                self.tick(5);
                let (target, _) = self.ea_ind_idx(low, idx);
                self.write(target, value);
                self.tick(1);
            },
            _ => {},
        }
    }

    /// Computes `modify_target`.
    pub fn target_of(&self, mode: AddressingMode, operand: u16) -> (r: u16)
        ensures
            r == self.modify_target(mode, operand),
    {
        match mode {
            AddressingMode::ZeroPage => widen(lo8(operand)),
            AddressingMode::ZeroPageX => widen(add8(lo8(operand), self.regs[1])),
            AddressingMode::AbsoluteX => add16(operand, widen(self.regs[1])),
            _ => operand,
        }
    }

    /// Spends the cycles of a modification in place and reads the byte.
    pub fn modify_read(&mut self, mode: AddressingMode, operand: u16) -> (r: u8)
        requires
            old(self).fits(7),
            modifies_memory(mode),
        ensures
            (r, *final(self)) == old(self).modify_reading(mode, operand),
            final(self).wf(),
            final(self).cyc == old(self).cyc + modify_cycles(mode),
    {
        proof {
            reveal(Cpu::modify_reading);
        }
        let target: u16 = self.target_of(mode, operand);
        let cycles: usize = match mode {
            AddressingMode::ZeroPage => 5,
            AddressingMode::AbsoluteX => 7,
            _ => 6,
        };
        self.tick(cycles);
        self.read(target)
    }
}

} // verus!
