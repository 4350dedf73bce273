//! Stores of the three registers.

use vstd::prelude::*;
use crate::cpu::addressing::{store_cycles, stores_register};
use crate::cpu::{AddressingMode, Cpu, Register};

verus! {

/// Whether STA can use the mode.
pub open spec fn stores_a(mode: AddressingMode) -> bool {
    stores_register(mode) && mode != AddressingMode::ZeroPageY
}

/// Whether STX can use the mode.
pub open spec fn stores_x(mode: AddressingMode) -> bool {
    mode == AddressingMode::ZeroPage || mode == AddressingMode::ZeroPageY || mode
        == AddressingMode::Absolute
}

/// Whether STY can use the mode.
pub open spec fn stores_y(mode: AddressingMode) -> bool {
    mode == AddressingMode::ZeroPage || mode == AddressingMode::ZeroPageX || mode
        == AddressingMode::Absolute
}

impl Cpu {
    /// The machine after register `reg` was stored in a mode.
    pub open spec fn after_store_register(
        self,
        reg: Register,
        addr: u16,
        mode: AddressingMode,
    ) -> Cpu {
        self.after_store(self.reg(reg), mode, addr)
    }

    /// Writes a register to an address.
    pub fn store(&mut self, reg: Register, addr: u16)
        requires
            old(self).wf(),
        ensures
            *final(self) == old(self).after_write(addr, old(self).reg(reg)),
            final(self).wf(),
            final(self).cyc == old(self).cyc,
    {
        let val: u8 = self.regs[reg.index()];
        self.write(addr, val);
    }

    /// Stores a register in a mode.
    pub fn store_register(&mut self, reg: Register, addr: u16, mode: AddressingMode)
        requires
            old(self).fits(6),
            stores_register(mode),
        ensures
            *final(self) == old(self).after_store_register(reg, addr, mode),
            final(self).wf(),
            final(self).cyc == old(self).cyc + store_cycles(mode),
    {
        let val: u8 = self.regs[reg.index()];
        self.store_value(val, mode, addr);
    }

    /// STA.
    pub fn sta(&mut self, addr: u16, mode: AddressingMode)
        requires
            old(self).fits(6),
            stores_a(mode),
        ensures
            *final(self) == old(self).after_store_register(Register::A, addr, mode),
            final(self).wf(),
            final(self).cyc == old(self).cyc + store_cycles(mode),
    {
        self.store_register(Register::A, addr, mode)
    }

    /// STX.
    pub fn stx(&mut self, addr: u16, mode: AddressingMode)
        requires
            old(self).fits(6),
            stores_x(mode),
        ensures
            *final(self) == old(self).after_store_register(Register::X, addr, mode),
            final(self).wf(),
            final(self).cyc == old(self).cyc + store_cycles(mode),
    {
        self.store_register(Register::X, addr, mode)
    }

    /// STY.
    pub fn sty(&mut self, addr: u16, mode: AddressingMode)
        requires
            old(self).fits(6),
            stores_y(mode),
        ensures
            *final(self) == old(self).after_store_register(Register::Y, addr, mode),
            final(self).wf(),
            final(self).cyc == old(self).cyc + store_cycles(mode),
    {
        self.store_register(Register::Y, addr, mode)
    }
}

} // verus!
