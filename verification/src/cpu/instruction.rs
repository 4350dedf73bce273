//! The instruction set: which byte means which instruction in which
//! addressing mode, what each costs, and the execution of one instruction.

use vstd::prelude::*;
use crate::cpu::addressing::{
    modifies_memory, modify_cycles, read_cycles, store_cycles,
};
use crate::cpu::arithmetic::accumulator_operand;
use crate::cpu::bitwise::{shift_cycles, shifts, Modify};
use crate::cpu::branch::{jump_cycles, jumps};
use crate::cpu::compare::{plain_operand, tests_bits};
use crate::cpu::load::{loads_x, loads_y};
use crate::cpu::status::Flag;
use crate::cpu::store::{stores_a, stores_x, stores_y};
use crate::cpu::{AddressingMode, Cpu, Register};
use crate::error::EmuError;
use crate::util::{bool_bit, offset_of, page_crossed, to_offset};

verus! {

/// The instructions.
#[derive(Clone, Copy, Debug, PartialEq, Eq, Structural)]
pub enum Instruction {
    Adc,
    And,
    Asl,
    Bcc,
    Bcs,
    Beq,
    Bit,
    Bmi,
    Bne,
    Bpl,
    Brk,
    Bvc,
    Bvs,
    Clc,
    Cld,
    Cli,
    Clv,
    Cmp,
    Cpx,
    Cpy,
    Dec,
    Dex,
    Dey,
    Eor,
    Inc,
    Inx,
    Iny,
    Jmp,
    Jsr,
    Lda,
    Ldx,
    Ldy,
    Lsr,
    Nop,
    Ora,
    Pha,
    Php,
    Pla,
    Plp,
    Rol,
    Ror,
    Rti,
    Rts,
    Sbc,
    Sec,
    Sed,
    Sei,
    Sta,
    Stx,
    Sty,
    Tax,
    Tay,
    Tsx,
    Txa,
    Txs,
    Tya,
}

/// The instruction and addressing mode that an instruction byte stands for,
/// if it stands for one.
pub open spec fn decoded(opcode: u8) -> Option<(Instruction, AddressingMode)> {
    if opcode == 0x00 {
        Some((Instruction::Brk, AddressingMode::Implied))
    } else if opcode == 0x01 {
        Some((Instruction::Ora, AddressingMode::IndexedIndirect))
    } else if opcode == 0x05 {
        Some((Instruction::Ora, AddressingMode::ZeroPage))
    } else if opcode == 0x06 {
        Some((Instruction::Asl, AddressingMode::ZeroPage))
    } else if opcode == 0x08 {
        Some((Instruction::Php, AddressingMode::Implied))
    } else if opcode == 0x09 {
        Some((Instruction::Ora, AddressingMode::Immediate))
    } else if opcode == 0x0A {
        Some((Instruction::Asl, AddressingMode::Accumulator))
    } else if opcode == 0x0D {
        Some((Instruction::Ora, AddressingMode::Absolute))
    } else if opcode == 0x0E {
        Some((Instruction::Asl, AddressingMode::Absolute))
    } else if opcode == 0x10 {
        Some((Instruction::Bpl, AddressingMode::Relative))
    } else if opcode == 0x11 {
        Some((Instruction::Ora, AddressingMode::IndirectIndexed))
    } else if opcode == 0x15 {
        Some((Instruction::Ora, AddressingMode::ZeroPageX))
    } else if opcode == 0x16 {
        Some((Instruction::Asl, AddressingMode::ZeroPageX))
    } else if opcode == 0x18 {
        Some((Instruction::Clc, AddressingMode::Implied))
    } else if opcode == 0x19 {
        Some((Instruction::Ora, AddressingMode::AbsoluteY))
    } else if opcode == 0x1D {
        Some((Instruction::Ora, AddressingMode::AbsoluteX))
    } else if opcode == 0x1E {
        Some((Instruction::Asl, AddressingMode::AbsoluteX))
    } else if opcode == 0x20 {
        Some((Instruction::Jsr, AddressingMode::Absolute))
    } else if opcode == 0x21 {
        Some((Instruction::And, AddressingMode::IndexedIndirect))
    } else if opcode == 0x24 {
        Some((Instruction::Bit, AddressingMode::ZeroPage))
    } else if opcode == 0x25 {
        Some((Instruction::And, AddressingMode::ZeroPage))
    } else if opcode == 0x26 {
        Some((Instruction::Rol, AddressingMode::ZeroPage))
    } else if opcode == 0x28 {
        Some((Instruction::Plp, AddressingMode::Implied))
    } else if opcode == 0x29 {
        Some((Instruction::And, AddressingMode::Immediate))
    } else if opcode == 0x2A {
        Some((Instruction::Rol, AddressingMode::Accumulator))
    } else if opcode == 0x2C {
        Some((Instruction::Bit, AddressingMode::Absolute))
    } else if opcode == 0x2D {
        Some((Instruction::And, AddressingMode::Absolute))
    } else if opcode == 0x2E {
        Some((Instruction::Rol, AddressingMode::Absolute))
    } else if opcode == 0x30 {
        Some((Instruction::Bmi, AddressingMode::Relative))
    } else if opcode == 0x31 {
        Some((Instruction::And, AddressingMode::IndirectIndexed))
    } else if opcode == 0x35 {
        Some((Instruction::And, AddressingMode::ZeroPageX))
    } else if opcode == 0x36 {
        Some((Instruction::Rol, AddressingMode::ZeroPageX))
    } else if opcode == 0x38 {
        Some((Instruction::Sec, AddressingMode::Implied))
    } else if opcode == 0x39 {
        Some((Instruction::And, AddressingMode::AbsoluteY))
    } else if opcode == 0x3D {
        Some((Instruction::And, AddressingMode::AbsoluteX))
    } else if opcode == 0x3E {
        Some((Instruction::Rol, AddressingMode::AbsoluteX))
    } else if opcode == 0x40 {
        Some((Instruction::Rti, AddressingMode::Implied))
    } else if opcode == 0x41 {
        Some((Instruction::Eor, AddressingMode::IndexedIndirect))
    } else if opcode == 0x45 {
        Some((Instruction::Eor, AddressingMode::ZeroPage))
    } else if opcode == 0x46 {
        Some((Instruction::Lsr, AddressingMode::ZeroPage))
    } else if opcode == 0x48 {
        Some((Instruction::Pha, AddressingMode::Implied))
    } else if opcode == 0x49 {
        Some((Instruction::Eor, AddressingMode::Immediate))
    } else if opcode == 0x4A {
        Some((Instruction::Lsr, AddressingMode::Accumulator))
    } else if opcode == 0x4C {
        Some((Instruction::Jmp, AddressingMode::Absolute))
    } else if opcode == 0x4D {
        Some((Instruction::Eor, AddressingMode::Absolute))
    } else if opcode == 0x4E {
        Some((Instruction::Lsr, AddressingMode::Absolute))
    } else if opcode == 0x50 {
        Some((Instruction::Bvc, AddressingMode::Relative))
    } else if opcode == 0x51 {
        Some((Instruction::Eor, AddressingMode::IndirectIndexed))
    } else if opcode == 0x55 {
        Some((Instruction::Eor, AddressingMode::ZeroPageX))
    } else if opcode == 0x56 {
        Some((Instruction::Lsr, AddressingMode::ZeroPageX))
    } else if opcode == 0x58 {
        Some((Instruction::Cli, AddressingMode::Implied))
    } else if opcode == 0x59 {
        Some((Instruction::Eor, AddressingMode::AbsoluteY))
    } else if opcode == 0x5D {
        Some((Instruction::Eor, AddressingMode::AbsoluteX))
    } else if opcode == 0x5E {
        Some((Instruction::Lsr, AddressingMode::AbsoluteX))
    } else if opcode == 0x60 {
        Some((Instruction::Rts, AddressingMode::Implied))
    } else if opcode == 0x61 {
        Some((Instruction::Adc, AddressingMode::IndexedIndirect))
    } else if opcode == 0x65 {
        Some((Instruction::Adc, AddressingMode::ZeroPage))
    } else if opcode == 0x66 {
        Some((Instruction::Ror, AddressingMode::ZeroPage))
    } else if opcode == 0x68 {
        Some((Instruction::Pla, AddressingMode::Implied))
    } else if opcode == 0x69 {
        Some((Instruction::Adc, AddressingMode::Immediate))
    } else if opcode == 0x6A {
        Some((Instruction::Ror, AddressingMode::Accumulator))
    } else if opcode == 0x6C {
        Some((Instruction::Jmp, AddressingMode::Indirect))
    } else if opcode == 0x6D {
        Some((Instruction::Adc, AddressingMode::Absolute))
    } else if opcode == 0x6E {
        Some((Instruction::Ror, AddressingMode::Absolute))
    } else if opcode == 0x70 {
        Some((Instruction::Bvs, AddressingMode::Relative))
    } else if opcode == 0x71 {
        Some((Instruction::Adc, AddressingMode::IndirectIndexed))
    } else if opcode == 0x75 {
        Some((Instruction::Adc, AddressingMode::ZeroPageX))
    } else if opcode == 0x76 {
        Some((Instruction::Ror, AddressingMode::ZeroPageX))
    } else if opcode == 0x78 {
        Some((Instruction::Sei, AddressingMode::Implied))
    } else if opcode == 0x79 {
        Some((Instruction::Adc, AddressingMode::AbsoluteY))
    } else if opcode == 0x7D {
        Some((Instruction::Adc, AddressingMode::AbsoluteX))
    } else if opcode == 0x7E {
        Some((Instruction::Ror, AddressingMode::AbsoluteX))
    } else if opcode == 0x81 {
        Some((Instruction::Sta, AddressingMode::IndexedIndirect))
    } else if opcode == 0x84 {
        Some((Instruction::Sty, AddressingMode::ZeroPage))
    } else if opcode == 0x85 {
        Some((Instruction::Sta, AddressingMode::ZeroPage))
    } else if opcode == 0x86 {
        Some((Instruction::Stx, AddressingMode::ZeroPage))
    } else if opcode == 0x88 {
        Some((Instruction::Dey, AddressingMode::Implied))
    } else if opcode == 0x8A {
        Some((Instruction::Txa, AddressingMode::Implied))
    } else if opcode == 0x8C {
        Some((Instruction::Sty, AddressingMode::Absolute))
    } else if opcode == 0x8D {
        Some((Instruction::Sta, AddressingMode::Absolute))
    } else if opcode == 0x8E {
        Some((Instruction::Stx, AddressingMode::Absolute))
    } else if opcode == 0x90 {
        Some((Instruction::Bcc, AddressingMode::Relative))
    } else if opcode == 0x91 {
        Some((Instruction::Sta, AddressingMode::IndirectIndexed))
    } else if opcode == 0x94 {
        Some((Instruction::Sty, AddressingMode::ZeroPageX))
    } else if opcode == 0x95 {
        Some((Instruction::Sta, AddressingMode::ZeroPageX))
    } else if opcode == 0x96 {
        Some((Instruction::Stx, AddressingMode::ZeroPageY))
    } else if opcode == 0x98 {
        Some((Instruction::Tya, AddressingMode::Implied))
    } else if opcode == 0x99 {
        Some((Instruction::Sta, AddressingMode::AbsoluteY))
    } else if opcode == 0x9A {
        Some((Instruction::Txs, AddressingMode::Implied))
    } else if opcode == 0x9D {
        Some((Instruction::Sta, AddressingMode::AbsoluteX))
    } else if opcode == 0xA0 {
        Some((Instruction::Ldy, AddressingMode::Immediate))
    } else if opcode == 0xA1 {
        Some((Instruction::Lda, AddressingMode::IndexedIndirect))
    } else if opcode == 0xA2 {
        Some((Instruction::Ldx, AddressingMode::Immediate))
    } else if opcode == 0xA4 {
        Some((Instruction::Ldy, AddressingMode::ZeroPage))
    } else if opcode == 0xA5 {
        Some((Instruction::Lda, AddressingMode::ZeroPage))
    } else if opcode == 0xA6 {
        Some((Instruction::Ldx, AddressingMode::ZeroPage))
    } else if opcode == 0xA8 {
        Some((Instruction::Tay, AddressingMode::Implied))
    } else if opcode == 0xA9 {
        Some((Instruction::Lda, AddressingMode::Immediate))
    } else if opcode == 0xAA {
        Some((Instruction::Tax, AddressingMode::Implied))
    } else if opcode == 0xAC {
        Some((Instruction::Ldy, AddressingMode::Absolute))
    } else if opcode == 0xAD {
        Some((Instruction::Lda, AddressingMode::Absolute))
    } else if opcode == 0xAE {
        Some((Instruction::Ldx, AddressingMode::Absolute))
    } else if opcode == 0xB0 {
        Some((Instruction::Bcs, AddressingMode::Relative))
    } else if opcode == 0xB1 {
        Some((Instruction::Lda, AddressingMode::IndirectIndexed))
    } else if opcode == 0xB4 {
        Some((Instruction::Ldy, AddressingMode::ZeroPageX))
    } else if opcode == 0xB5 {
        Some((Instruction::Lda, AddressingMode::ZeroPageX))
    } else if opcode == 0xB6 {
        Some((Instruction::Ldx, AddressingMode::ZeroPageY))
    } else if opcode == 0xB8 {
        Some((Instruction::Clv, AddressingMode::Implied))
    } else if opcode == 0xB9 {
        Some((Instruction::Lda, AddressingMode::AbsoluteY))
    } else if opcode == 0xBA {
        Some((Instruction::Tsx, AddressingMode::Implied))
    } else if opcode == 0xBC {
        Some((Instruction::Ldy, AddressingMode::AbsoluteX))
    } else if opcode == 0xBD {
        Some((Instruction::Lda, AddressingMode::AbsoluteX))
    } else if opcode == 0xBE {
        Some((Instruction::Ldx, AddressingMode::AbsoluteY))
    } else if opcode == 0xC0 {
        Some((Instruction::Cpy, AddressingMode::Immediate))
    } else if opcode == 0xC1 {
        Some((Instruction::Cmp, AddressingMode::IndexedIndirect))
    } else if opcode == 0xC4 {
        Some((Instruction::Cpy, AddressingMode::ZeroPage))
    } else if opcode == 0xC5 {
        Some((Instruction::Cmp, AddressingMode::ZeroPage))
    } else if opcode == 0xC6 {
        Some((Instruction::Dec, AddressingMode::ZeroPage))
    } else if opcode == 0xC8 {
        Some((Instruction::Iny, AddressingMode::Implied))
    } else if opcode == 0xC9 {
        Some((Instruction::Cmp, AddressingMode::Immediate))
    } else if opcode == 0xCA {
        Some((Instruction::Dex, AddressingMode::Implied))
    } else if opcode == 0xCC {
        Some((Instruction::Cpy, AddressingMode::Absolute))
    } else if opcode == 0xCD {
        Some((Instruction::Cmp, AddressingMode::Absolute))
    } else if opcode == 0xCE {
        Some((Instruction::Dec, AddressingMode::Absolute))
    } else if opcode == 0xD0 {
        Some((Instruction::Bne, AddressingMode::Relative))
    } else if opcode == 0xD1 {
        Some((Instruction::Cmp, AddressingMode::IndirectIndexed))
    } else if opcode == 0xD5 {
        Some((Instruction::Cmp, AddressingMode::ZeroPageX))
    } else if opcode == 0xD6 {
        Some((Instruction::Dec, AddressingMode::ZeroPageX))
    } else if opcode == 0xD8 {
        Some((Instruction::Cld, AddressingMode::Implied))
    } else if opcode == 0xD9 {
        Some((Instruction::Cmp, AddressingMode::AbsoluteY))
    } else if opcode == 0xDD {
        Some((Instruction::Cmp, AddressingMode::AbsoluteX))
    } else if opcode == 0xDE {
        Some((Instruction::Dec, AddressingMode::AbsoluteX))
    } else if opcode == 0xE0 {
        Some((Instruction::Cpx, AddressingMode::Immediate))
    } else if opcode == 0xE1 {
        Some((Instruction::Sbc, AddressingMode::IndexedIndirect))
    } else if opcode == 0xE4 {
        Some((Instruction::Cpx, AddressingMode::ZeroPage))
    } else if opcode == 0xE5 {
        Some((Instruction::Sbc, AddressingMode::ZeroPage))
    } else if opcode == 0xE6 {
        Some((Instruction::Inc, AddressingMode::ZeroPage))
    } else if opcode == 0xE8 {
        Some((Instruction::Inx, AddressingMode::Implied))
    } else if opcode == 0xE9 {
        Some((Instruction::Sbc, AddressingMode::Immediate))
    } else if opcode == 0xEA {
        Some((Instruction::Nop, AddressingMode::Implied))
    } else if opcode == 0xEC {
        Some((Instruction::Cpx, AddressingMode::Absolute))
    } else if opcode == 0xED {
        Some((Instruction::Sbc, AddressingMode::Absolute))
    } else if opcode == 0xEE {
        Some((Instruction::Inc, AddressingMode::Absolute))
    } else if opcode == 0xF0 {
        Some((Instruction::Beq, AddressingMode::Relative))
    } else if opcode == 0xF1 {
        Some((Instruction::Sbc, AddressingMode::IndirectIndexed))
    } else if opcode == 0xF5 {
        Some((Instruction::Sbc, AddressingMode::ZeroPageX))
    } else if opcode == 0xF6 {
        Some((Instruction::Inc, AddressingMode::ZeroPageX))
    } else if opcode == 0xF8 {
        Some((Instruction::Sed, AddressingMode::Implied))
    } else if opcode == 0xF9 {
        Some((Instruction::Sbc, AddressingMode::AbsoluteY))
    } else if opcode == 0xFD {
        Some((Instruction::Sbc, AddressingMode::AbsoluteX))
    } else if opcode == 0xFE {
        Some((Instruction::Inc, AddressingMode::AbsoluteX))
    } else {
        None
    }
}

/// Whether the instruction exists in the addressing mode.
pub open spec fn supports(instr: Instruction, mode: AddressingMode) -> bool {
    match instr {
        Instruction::Adc | Instruction::And | Instruction::Cmp | Instruction::Eor | Instruction::Lda | Instruction::Ora | Instruction::Sbc => accumulator_operand(mode),
        Instruction::Asl | Instruction::Lsr | Instruction::Rol | Instruction::Ror => shifts(mode),
        Instruction::Bcc | Instruction::Bcs | Instruction::Beq | Instruction::Bmi | Instruction::Bne | Instruction::Bpl | Instruction::Bvc | Instruction::Bvs => mode == AddressingMode::Relative,
        Instruction::Bit => tests_bits(mode),
        Instruction::Brk | Instruction::Clc | Instruction::Cld | Instruction::Cli | Instruction::Clv | Instruction::Dex | Instruction::Dey | Instruction::Inx | Instruction::Iny | Instruction::Nop | Instruction::Pha | Instruction::Php | Instruction::Pla | Instruction::Plp | Instruction::Rti | Instruction::Rts | Instruction::Sec | Instruction::Sed | Instruction::Sei | Instruction::Tax | Instruction::Tay | Instruction::Tsx | Instruction::Txa | Instruction::Txs | Instruction::Tya => mode == AddressingMode::Implied,
        Instruction::Cpx | Instruction::Cpy => plain_operand(mode),
        Instruction::Dec | Instruction::Inc => modifies_memory(mode),
        Instruction::Jmp => jumps(mode),
        Instruction::Jsr => mode == AddressingMode::Absolute,
        Instruction::Ldx => loads_x(mode),
        Instruction::Ldy => loads_y(mode),
        Instruction::Sta => stores_a(mode),
        Instruction::Stx => stores_x(mode),
        Instruction::Sty => stores_y(mode),
    }
}

/// The number of operand bytes that follow the instruction byte.
pub open spec fn operand_size(mode: AddressingMode) -> int {
    match mode {
        AddressingMode::Implied | AddressingMode::Accumulator => 0,
        AddressingMode::Absolute | AddressingMode::AbsoluteX | AddressingMode::AbsoluteY
        | AddressingMode::Indirect => 2,
        _ => 1,
    }
}

/// The cycles of an instruction in a mode when no page is crossed and no
/// branch is taken.
pub open spec fn base_cycles(instr: Instruction, mode: AddressingMode) -> int {
    match instr {
        Instruction::Adc | Instruction::And | Instruction::Bit | Instruction::Cmp | Instruction::Cpx | Instruction::Cpy | Instruction::Eor | Instruction::Lda | Instruction::Ldx | Instruction::Ldy | Instruction::Ora | Instruction::Sbc => read_cycles(mode),
        Instruction::Asl | Instruction::Lsr | Instruction::Rol | Instruction::Ror => shift_cycles(mode),
        Instruction::Bcc | Instruction::Bcs | Instruction::Beq | Instruction::Bmi | Instruction::Bne | Instruction::Bpl | Instruction::Bvc | Instruction::Bvs | Instruction::Clc | Instruction::Cld | Instruction::Cli | Instruction::Clv | Instruction::Dex | Instruction::Dey | Instruction::Inx | Instruction::Iny | Instruction::Nop | Instruction::Sec | Instruction::Sed | Instruction::Sei | Instruction::Tax | Instruction::Tay | Instruction::Tsx | Instruction::Txa | Instruction::Txs | Instruction::Tya => 2,
        Instruction::Brk => 7,
        Instruction::Dec | Instruction::Inc => modify_cycles(mode),
        Instruction::Jmp => jump_cycles(mode),
        Instruction::Jsr | Instruction::Rti | Instruction::Rts => 6,
        Instruction::Pha | Instruction::Php => 3,
        Instruction::Pla | Instruction::Plp => 4,
        Instruction::Sta | Instruction::Stx | Instruction::Sty => store_cycles(mode),
    }
}

/// Whether the instruction reads its operand from memory, so that crossing
/// a page while forming the address costs a cycle.
pub open spec fn is_read(instr: Instruction) -> bool {
    match instr {
        Instruction::Adc | Instruction::And | Instruction::Eor | Instruction::Ora | Instruction::Sbc | Instruction::Cmp | Instruction::Lda | Instruction::Ldx | Instruction::Ldy | Instruction::Cpx | Instruction::Cpy | Instruction::Bit => true,
        _ => false,
    }
}

/// The flag a branch tests and the value that makes it jump.
pub open spec fn branch_test(instr: Instruction) -> Option<(Flag, bool)> {
    match instr {
        Instruction::Bpl => Some((Flag::Negative, false)),
        Instruction::Bmi => Some((Flag::Negative, true)),
        Instruction::Bvc => Some((Flag::Overflow, false)),
        Instruction::Bvs => Some((Flag::Overflow, true)),
        Instruction::Bcc => Some((Flag::Carry, false)),
        Instruction::Bcs => Some((Flag::Carry, true)),
        Instruction::Bne => Some((Flag::Zero, false)),
        Instruction::Beq => Some((Flag::Zero, true)),
        _ => None,
    }
}

impl Cpu {
    /// The cycles an instruction takes beyond its base count: one for a
    /// read that crosses a page, one for a branch that is taken and one
    /// more when its target lies on another page.
    pub open spec fn penalty(self, instr: Instruction, mode: AddressingMode, operand: u16) -> int {
        match branch_test(instr) {
            Some(t) => if self.p.has(t.0) == t.1 {
                1 + bool_bit(page_crossed(self.pc, signed_offset(operand)))
            } else {
                0
            },
            None => if is_read(instr) {
                bool_bit(self.crossing(mode, operand)) + 0
            } else {
                0
            },
        }
    }

    /// The machine after the instruction was executed with the operand
    /// that followed the instruction byte.
    #[verifier::opaque]
    pub open spec fn after_execute(self, instr: Instruction, mode: AddressingMode, operand: u16) -> Cpu {
        match instr {
            Instruction::Adc => self.after_adc(operand, mode),
            Instruction::And => self.after_and(operand, mode),
            Instruction::Asl => self.after_modify(Modify::Asl, operand, mode),
            Instruction::Bcc => self.after_branch_on(Flag::Carry, false, offset_of(operand)),
            Instruction::Bcs => self.after_branch_on(Flag::Carry, true, offset_of(operand)),
            Instruction::Beq => self.after_branch_on(Flag::Zero, true, offset_of(operand)),
            Instruction::Bit => self.after_bit(operand, mode),
            Instruction::Bmi => self.after_branch_on(Flag::Negative, true, offset_of(operand)),
            Instruction::Bne => self.after_branch_on(Flag::Zero, false, offset_of(operand)),
            Instruction::Bpl => self.after_branch_on(Flag::Negative, false, offset_of(operand)),
            Instruction::Brk => self.after_brk(),
            Instruction::Bvc => self.after_branch_on(Flag::Overflow, false, offset_of(operand)),
            Instruction::Bvs => self.after_branch_on(Flag::Overflow, true, offset_of(operand)),
            Instruction::Clc => self.after_flag(Flag::Carry, false),
            Instruction::Cld => self.after_flag(Flag::Decimal, false),
            Instruction::Cli => self.after_flag(Flag::InterruptDisable, false),
            Instruction::Clv => self.after_flag(Flag::Overflow, false),
            Instruction::Cmp => self.after_compare_with(Register::A, operand, mode),
            Instruction::Cpx => self.after_compare_with(Register::X, operand, mode),
            Instruction::Cpy => self.after_compare_with(Register::Y, operand, mode),
            Instruction::Dec => self.after_modify(Modify::Dec, operand, mode),
            Instruction::Dex => self.after_step_reg(Register::X, false),
            Instruction::Dey => self.after_step_reg(Register::Y, false),
            Instruction::Eor => self.after_eor(operand, mode),
            Instruction::Inc => self.after_modify(Modify::Inc, operand, mode),
            Instruction::Inx => self.after_step_reg(Register::X, true),
            Instruction::Iny => self.after_step_reg(Register::Y, true),
            Instruction::Jmp => self.after_jmp(operand, mode),
            Instruction::Jsr => self.after_jsr(operand),
            Instruction::Lda => self.after_load(Register::A, operand, mode),
            Instruction::Ldx => self.after_load(Register::X, operand, mode),
            Instruction::Ldy => self.after_load(Register::Y, operand, mode),
            Instruction::Lsr => self.after_modify(Modify::Lsr, operand, mode),
            Instruction::Nop => self.after_tick(2),
            Instruction::Ora => self.after_ora(operand, mode),
            Instruction::Pha => self.after_pha(),
            Instruction::Php => self.after_php(),
            Instruction::Pla => self.after_pla(),
            Instruction::Plp => self.after_plp(),
            Instruction::Rol => self.after_modify(Modify::Rol, operand, mode),
            Instruction::Ror => self.after_modify(Modify::Ror, operand, mode),
            Instruction::Rti => self.after_rti(),
            Instruction::Rts => self.after_rts(),
            Instruction::Sbc => self.after_sbc(operand, mode),
            Instruction::Sec => self.after_flag(Flag::Carry, true),
            Instruction::Sed => self.after_flag(Flag::Decimal, true),
            Instruction::Sei => self.after_flag(Flag::InterruptDisable, true),
            Instruction::Sta => self.after_store_register(Register::A, operand, mode),
            Instruction::Stx => self.after_store_register(Register::X, operand, mode),
            Instruction::Sty => self.after_store_register(Register::Y, operand, mode),
            Instruction::Tax => self.after_transfer(Register::A, Register::X),
            Instruction::Tay => self.after_transfer(Register::A, Register::Y),
            Instruction::Tsx => self.after_tsx(),
            Instruction::Txa => self.after_transfer(Register::X, Register::A),
            Instruction::Txs => self.after_txs(),
            Instruction::Tya => self.after_transfer(Register::Y, Register::A),
        }
    }

    /// The operand bytes of a mode, read at the program counter, and the
    /// machine with the counter moved past them.
    pub open spec fn fetching_operand(self, mode: AddressingMode) -> (u16, Cpu) {
        if operand_size(mode) == 0 {
            (0, self)
        } else if operand_size(mode) == 1 {
            (widened(self.fetching_byte().0), self.fetching_byte().1)
        } else {
            self.fetching_word()
        }
    }

    /// The outcome of one instruction and the machine after it.  A byte
    /// that is no instruction is consumed and reported.  After the
    /// instruction, an address that reached a bank the cartridge does not
    /// hold, now or earlier, is reported.
    #[verifier::opaque]
    pub open spec fn stepping(self) -> (Result<(), EmuError>, Cpu) {
        let f = self.fetching_byte();
        match decoded(f.0) {
            None => (Err(EmuError::UnimplementedOpcode(f.0)), f.1),
            Some(d) => {
                let o = f.1.fetching_operand(d.1);
                let s = o.1.after_execute(d.0, d.1, o.0);
                (
                    match s.bus.fault_of() {
                        Some(a) => Err(EmuError::BusUnreachable(a)),
                        None => Ok(()),
                    },
                    s,
                )
            },
        }
    }

    /// The cycles that the next instruction takes: the base count of its
    /// instruction byte plus its penalty; none for a byte that is no instruction.
    pub open spec fn step_cycles(self) -> int {
        let f = self.fetching_byte();
        match decoded(f.0) {
            None => 0,
            Some(d) => {
                let o = f.1.fetching_operand(d.1);
                base_cycles(d.0, d.1) + o.1.penalty(d.0, d.1, o.0)
            },
        }
    }

    /// Decodes an instruction byte.
    pub fn decode(opcode: u8) -> (r: Option<(Instruction, AddressingMode)>)
        ensures
            r == decoded(opcode),
            r matches Some(d) ==> supports(d.0, d.1),
    {
        match opcode {
            0x00 => Some((Instruction::Brk, AddressingMode::Implied)),
            0x01 => Some((Instruction::Ora, AddressingMode::IndexedIndirect)),
            0x05 => Some((Instruction::Ora, AddressingMode::ZeroPage)),
            0x06 => Some((Instruction::Asl, AddressingMode::ZeroPage)),
            0x08 => Some((Instruction::Php, AddressingMode::Implied)),
            0x09 => Some((Instruction::Ora, AddressingMode::Immediate)),
            0x0A => Some((Instruction::Asl, AddressingMode::Accumulator)),
            0x0D => Some((Instruction::Ora, AddressingMode::Absolute)),
            0x0E => Some((Instruction::Asl, AddressingMode::Absolute)),
            0x10 => Some((Instruction::Bpl, AddressingMode::Relative)),
            0x11 => Some((Instruction::Ora, AddressingMode::IndirectIndexed)),
            0x15 => Some((Instruction::Ora, AddressingMode::ZeroPageX)),
            0x16 => Some((Instruction::Asl, AddressingMode::ZeroPageX)),
            0x18 => Some((Instruction::Clc, AddressingMode::Implied)),
            0x19 => Some((Instruction::Ora, AddressingMode::AbsoluteY)),
            0x1D => Some((Instruction::Ora, AddressingMode::AbsoluteX)),
            0x1E => Some((Instruction::Asl, AddressingMode::AbsoluteX)),
            0x20 => Some((Instruction::Jsr, AddressingMode::Absolute)),
            0x21 => Some((Instruction::And, AddressingMode::IndexedIndirect)),
            0x24 => Some((Instruction::Bit, AddressingMode::ZeroPage)),
            0x25 => Some((Instruction::And, AddressingMode::ZeroPage)),
            0x26 => Some((Instruction::Rol, AddressingMode::ZeroPage)),
            0x28 => Some((Instruction::Plp, AddressingMode::Implied)),
            0x29 => Some((Instruction::And, AddressingMode::Immediate)),
            0x2A => Some((Instruction::Rol, AddressingMode::Accumulator)),
            0x2C => Some((Instruction::Bit, AddressingMode::Absolute)),
            0x2D => Some((Instruction::And, AddressingMode::Absolute)),
            0x2E => Some((Instruction::Rol, AddressingMode::Absolute)),
            0x30 => Some((Instruction::Bmi, AddressingMode::Relative)),
            0x31 => Some((Instruction::And, AddressingMode::IndirectIndexed)),
            0x35 => Some((Instruction::And, AddressingMode::ZeroPageX)),
            0x36 => Some((Instruction::Rol, AddressingMode::ZeroPageX)),
            0x38 => Some((Instruction::Sec, AddressingMode::Implied)),
            0x39 => Some((Instruction::And, AddressingMode::AbsoluteY)),
            0x3D => Some((Instruction::And, AddressingMode::AbsoluteX)),
            0x3E => Some((Instruction::Rol, AddressingMode::AbsoluteX)),
            0x40 => Some((Instruction::Rti, AddressingMode::Implied)),
            0x41 => Some((Instruction::Eor, AddressingMode::IndexedIndirect)),
            0x45 => Some((Instruction::Eor, AddressingMode::ZeroPage)),
            0x46 => Some((Instruction::Lsr, AddressingMode::ZeroPage)),
            0x48 => Some((Instruction::Pha, AddressingMode::Implied)),
            0x49 => Some((Instruction::Eor, AddressingMode::Immediate)),
            0x4A => Some((Instruction::Lsr, AddressingMode::Accumulator)),
            0x4C => Some((Instruction::Jmp, AddressingMode::Absolute)),
            0x4D => Some((Instruction::Eor, AddressingMode::Absolute)),
            0x4E => Some((Instruction::Lsr, AddressingMode::Absolute)),
            0x50 => Some((Instruction::Bvc, AddressingMode::Relative)),
            0x51 => Some((Instruction::Eor, AddressingMode::IndirectIndexed)),
            0x55 => Some((Instruction::Eor, AddressingMode::ZeroPageX)),
            0x56 => Some((Instruction::Lsr, AddressingMode::ZeroPageX)),
            0x58 => Some((Instruction::Cli, AddressingMode::Implied)),
            0x59 => Some((Instruction::Eor, AddressingMode::AbsoluteY)),
            0x5D => Some((Instruction::Eor, AddressingMode::AbsoluteX)),
            0x5E => Some((Instruction::Lsr, AddressingMode::AbsoluteX)),
            0x60 => Some((Instruction::Rts, AddressingMode::Implied)),
            0x61 => Some((Instruction::Adc, AddressingMode::IndexedIndirect)),
            0x65 => Some((Instruction::Adc, AddressingMode::ZeroPage)),
            0x66 => Some((Instruction::Ror, AddressingMode::ZeroPage)),
            0x68 => Some((Instruction::Pla, AddressingMode::Implied)),
            0x69 => Some((Instruction::Adc, AddressingMode::Immediate)),
            0x6A => Some((Instruction::Ror, AddressingMode::Accumulator)),
            0x6C => Some((Instruction::Jmp, AddressingMode::Indirect)),
            0x6D => Some((Instruction::Adc, AddressingMode::Absolute)),
            0x6E => Some((Instruction::Ror, AddressingMode::Absolute)),
            0x70 => Some((Instruction::Bvs, AddressingMode::Relative)),
            0x71 => Some((Instruction::Adc, AddressingMode::IndirectIndexed)),
            0x75 => Some((Instruction::Adc, AddressingMode::ZeroPageX)),
            0x76 => Some((Instruction::Ror, AddressingMode::ZeroPageX)),
            0x78 => Some((Instruction::Sei, AddressingMode::Implied)),
            0x79 => Some((Instruction::Adc, AddressingMode::AbsoluteY)),
            0x7D => Some((Instruction::Adc, AddressingMode::AbsoluteX)),
            0x7E => Some((Instruction::Ror, AddressingMode::AbsoluteX)),
            0x81 => Some((Instruction::Sta, AddressingMode::IndexedIndirect)),
            0x84 => Some((Instruction::Sty, AddressingMode::ZeroPage)),
            0x85 => Some((Instruction::Sta, AddressingMode::ZeroPage)),
            0x86 => Some((Instruction::Stx, AddressingMode::ZeroPage)),
            0x88 => Some((Instruction::Dey, AddressingMode::Implied)),
            0x8A => Some((Instruction::Txa, AddressingMode::Implied)),
            0x8C => Some((Instruction::Sty, AddressingMode::Absolute)),
            0x8D => Some((Instruction::Sta, AddressingMode::Absolute)),
            0x8E => Some((Instruction::Stx, AddressingMode::Absolute)),
            0x90 => Some((Instruction::Bcc, AddressingMode::Relative)),
            0x91 => Some((Instruction::Sta, AddressingMode::IndirectIndexed)),
            0x94 => Some((Instruction::Sty, AddressingMode::ZeroPageX)),
            0x95 => Some((Instruction::Sta, AddressingMode::ZeroPageX)),
            0x96 => Some((Instruction::Stx, AddressingMode::ZeroPageY)),
            0x98 => Some((Instruction::Tya, AddressingMode::Implied)),
            0x99 => Some((Instruction::Sta, AddressingMode::AbsoluteY)),
            0x9A => Some((Instruction::Txs, AddressingMode::Implied)),
            0x9D => Some((Instruction::Sta, AddressingMode::AbsoluteX)),
            0xA0 => Some((Instruction::Ldy, AddressingMode::Immediate)),
            0xA1 => Some((Instruction::Lda, AddressingMode::IndexedIndirect)),
            0xA2 => Some((Instruction::Ldx, AddressingMode::Immediate)),
            0xA4 => Some((Instruction::Ldy, AddressingMode::ZeroPage)),
            0xA5 => Some((Instruction::Lda, AddressingMode::ZeroPage)),
            0xA6 => Some((Instruction::Ldx, AddressingMode::ZeroPage)),
            0xA8 => Some((Instruction::Tay, AddressingMode::Implied)),
            0xA9 => Some((Instruction::Lda, AddressingMode::Immediate)),
            0xAA => Some((Instruction::Tax, AddressingMode::Implied)),
            0xAC => Some((Instruction::Ldy, AddressingMode::Absolute)),
            0xAD => Some((Instruction::Lda, AddressingMode::Absolute)),
            0xAE => Some((Instruction::Ldx, AddressingMode::Absolute)),
            0xB0 => Some((Instruction::Bcs, AddressingMode::Relative)),
            0xB1 => Some((Instruction::Lda, AddressingMode::IndirectIndexed)),
            0xB4 => Some((Instruction::Ldy, AddressingMode::ZeroPageX)),
            0xB5 => Some((Instruction::Lda, AddressingMode::ZeroPageX)),
            0xB6 => Some((Instruction::Ldx, AddressingMode::ZeroPageY)),
            0xB8 => Some((Instruction::Clv, AddressingMode::Implied)),
            0xB9 => Some((Instruction::Lda, AddressingMode::AbsoluteY)),
            0xBA => Some((Instruction::Tsx, AddressingMode::Implied)),
            0xBC => Some((Instruction::Ldy, AddressingMode::AbsoluteX)),
            0xBD => Some((Instruction::Lda, AddressingMode::AbsoluteX)),
            0xBE => Some((Instruction::Ldx, AddressingMode::AbsoluteY)),
            0xC0 => Some((Instruction::Cpy, AddressingMode::Immediate)),
            0xC1 => Some((Instruction::Cmp, AddressingMode::IndexedIndirect)),
            0xC4 => Some((Instruction::Cpy, AddressingMode::ZeroPage)),
            0xC5 => Some((Instruction::Cmp, AddressingMode::ZeroPage)),
            0xC6 => Some((Instruction::Dec, AddressingMode::ZeroPage)),
            0xC8 => Some((Instruction::Iny, AddressingMode::Implied)),
            0xC9 => Some((Instruction::Cmp, AddressingMode::Immediate)),
            0xCA => Some((Instruction::Dex, AddressingMode::Implied)),
            0xCC => Some((Instruction::Cpy, AddressingMode::Absolute)),
            0xCD => Some((Instruction::Cmp, AddressingMode::Absolute)),
            0xCE => Some((Instruction::Dec, AddressingMode::Absolute)),
            0xD0 => Some((Instruction::Bne, AddressingMode::Relative)),
            0xD1 => Some((Instruction::Cmp, AddressingMode::IndirectIndexed)),
            0xD5 => Some((Instruction::Cmp, AddressingMode::ZeroPageX)),
            0xD6 => Some((Instruction::Dec, AddressingMode::ZeroPageX)),
            0xD8 => Some((Instruction::Cld, AddressingMode::Implied)),
            0xD9 => Some((Instruction::Cmp, AddressingMode::AbsoluteY)),
            0xDD => Some((Instruction::Cmp, AddressingMode::AbsoluteX)),
            0xDE => Some((Instruction::Dec, AddressingMode::AbsoluteX)),
            0xE0 => Some((Instruction::Cpx, AddressingMode::Immediate)),
            0xE1 => Some((Instruction::Sbc, AddressingMode::IndexedIndirect)),
            0xE4 => Some((Instruction::Cpx, AddressingMode::ZeroPage)),
            0xE5 => Some((Instruction::Sbc, AddressingMode::ZeroPage)),
            0xE6 => Some((Instruction::Inc, AddressingMode::ZeroPage)),
            0xE8 => Some((Instruction::Inx, AddressingMode::Implied)),
            0xE9 => Some((Instruction::Sbc, AddressingMode::Immediate)),
            0xEA => Some((Instruction::Nop, AddressingMode::Implied)),
            0xEC => Some((Instruction::Cpx, AddressingMode::Absolute)),
            0xED => Some((Instruction::Sbc, AddressingMode::Absolute)),
            0xEE => Some((Instruction::Inc, AddressingMode::Absolute)),
            0xF0 => Some((Instruction::Beq, AddressingMode::Relative)),
            0xF1 => Some((Instruction::Sbc, AddressingMode::IndirectIndexed)),
            0xF5 => Some((Instruction::Sbc, AddressingMode::ZeroPageX)),
            0xF6 => Some((Instruction::Inc, AddressingMode::ZeroPageX)),
            0xF8 => Some((Instruction::Sed, AddressingMode::Implied)),
            0xF9 => Some((Instruction::Sbc, AddressingMode::AbsoluteY)),
            0xFD => Some((Instruction::Sbc, AddressingMode::AbsoluteX)),
            0xFE => Some((Instruction::Inc, AddressingMode::AbsoluteX)),
            _ => None,
        }
    }

    /// Reads the operand bytes of a mode.
    pub fn fetch_operand(&mut self, mode: AddressingMode) -> (r: u16)
        requires
            old(self).wf(),
        ensures
            (r, *final(self)) == old(self).fetching_operand(mode),
            final(self).wf(),
            final(self).cyc == old(self).cyc,
    {
        match mode {
            AddressingMode::Implied | AddressingMode::Accumulator => 0,
            AddressingMode::Absolute | AddressingMode::AbsoluteX | AddressingMode::AbsoluteY
            | AddressingMode::Indirect => self.read_word_operand(),
            _ => {
                let b: u8 = self.read_byte_operand();
                crate::util::widen(b)
            },
        }
    }

    /// Executes an instruction that reads its operand.
    pub fn execute_read(&mut self, instr: Instruction, mode: AddressingMode, operand: u16)
        requires
            old(self).fits(7),
            supports(instr, mode),
            in_read_group(instr),
        ensures
            *final(self) == old(self).after_execute(instr, mode, operand),
            final(self).wf(),
            final(self).cyc == old(self).cyc + base_cycles(instr, mode) + old(self).penalty(
                instr,
                mode,
                operand,
            ),
    {
        proof {
            reveal(Cpu::after_execute);
        }
        match instr {
            Instruction::Adc => self.adc(operand, mode),
            Instruction::And => self.and(operand, mode),
            Instruction::Eor => self.eor(operand, mode),
            Instruction::Ora => self.ora(operand, mode),
            Instruction::Sbc => self.sbc(operand, mode),
            Instruction::Cmp => self.cmp(operand, mode),
            Instruction::Lda => self.lda(operand, mode),
            Instruction::Ldx => self.ldx(operand, mode),
            Instruction::Ldy => self.ldy(operand, mode),
            Instruction::Cpx => self.cpx(operand, mode),
            Instruction::Cpy => self.cpy(operand, mode),
            Instruction::Bit => self.bit(operand, mode),
            _ => {},
        }
    }

    /// Executes a store, a shift, a rotation, an increment or a decrement.
    pub fn execute_write(&mut self, instr: Instruction, mode: AddressingMode, operand: u16)
        requires
            old(self).fits(7),
            supports(instr, mode),
            in_write_group(instr),
        ensures
            *final(self) == old(self).after_execute(instr, mode, operand),
            final(self).wf(),
            final(self).cyc == old(self).cyc + base_cycles(instr, mode) + old(self).penalty(
                instr,
                mode,
                operand,
            ),
    {
        proof {
            reveal(Cpu::after_execute);
        }
        match instr {
            Instruction::Sta => self.sta(operand, mode),
            Instruction::Stx => self.stx(operand, mode),
            Instruction::Sty => self.sty(operand, mode),
            Instruction::Asl => self.asl(operand, mode),
            Instruction::Lsr => self.lsr(operand, mode),
            Instruction::Rol => self.rol(operand, mode),
            Instruction::Ror => self.ror(operand, mode),
            Instruction::Inc => self.inc(operand, mode),
            Instruction::Dec => self.dec(operand, mode),
            _ => {},
        }
    }

    /// Executes a branch, a jump, a call, a return or a software interrupt.
    pub fn execute_flow(&mut self, instr: Instruction, mode: AddressingMode, operand: u16)
        requires
            old(self).fits(7),
            supports(instr, mode),
            in_flow_group(instr),
        ensures
            *final(self) == old(self).after_execute(instr, mode, operand),
            final(self).wf(),
            final(self).cyc == old(self).cyc + base_cycles(instr, mode) + old(self).penalty(
                instr,
                mode,
                operand,
            ),
    {
        proof {
            reveal(Cpu::after_execute);
        }
        match instr {
            Instruction::Bpl => self.bpl(to_offset(operand)),
            Instruction::Bmi => self.bmi(to_offset(operand)),
            Instruction::Bvc => self.bvc(to_offset(operand)),
            Instruction::Bvs => self.bvs(to_offset(operand)),
            Instruction::Bcc => self.bcc(to_offset(operand)),
            Instruction::Bcs => self.bcs(to_offset(operand)),
            Instruction::Bne => self.bne(to_offset(operand)),
            Instruction::Beq => self.beq(to_offset(operand)),
            Instruction::Jmp => self.jmp(operand, mode),
            Instruction::Jsr => self.jsr(operand),
            Instruction::Rts => self.rts(),
            Instruction::Brk => self.brk(),
            Instruction::Rti => self.rti(),
            _ => {},
        }
    }

    /// Executes a push, a pull or a transfer.
    pub fn execute_stack(&mut self, instr: Instruction, mode: AddressingMode, operand: u16)
        requires
            old(self).fits(7),
            supports(instr, mode),
            in_stack_group(instr),
        ensures
            *final(self) == old(self).after_execute(instr, mode, operand),
            final(self).wf(),
            final(self).cyc == old(self).cyc + base_cycles(instr, mode) + old(self).penalty(
                instr,
                mode,
                operand,
            ),
    {
        proof {
            reveal(Cpu::after_execute);
        }
        match instr {
            Instruction::Pha => self.pha(),
            Instruction::Php => self.php(),
            Instruction::Pla => self.pla(),
            Instruction::Plp => self.plp(),
            Instruction::Tax => self.tax(),
            Instruction::Tay => self.tay(),
            Instruction::Txa => self.txa(),
            Instruction::Tya => self.tya(),
            Instruction::Tsx => self.tsx(),
            Instruction::Txs => self.txs(),
            _ => {},
        }
    }

    /// Executes an instruction on a flag or an index register, or no operation.
    pub fn execute_register(&mut self, instr: Instruction, mode: AddressingMode, operand: u16)
        requires
            old(self).fits(7),
            supports(instr, mode),
            in_register_group(instr),
        ensures
            *final(self) == old(self).after_execute(instr, mode, operand),
            final(self).wf(),
            final(self).cyc == old(self).cyc + base_cycles(instr, mode) + old(self).penalty(
                instr,
                mode,
                operand,
            ),
    {
        proof {
            reveal(Cpu::after_execute);
        }
        match instr {
            Instruction::Clc => self.clc(),
            Instruction::Cld => self.cld(),
            Instruction::Cli => self.cli(),
            Instruction::Clv => self.clv(),
            Instruction::Dex => self.dex(),
            Instruction::Dey => self.dey(),
            Instruction::Inx => self.inx(),
            Instruction::Iny => self.iny(),
            Instruction::Nop => self.nop(),
            Instruction::Sec => self.sec(),
            Instruction::Sed => self.sed(),
            Instruction::Sei => self.sei(),
            _ => {},
        }
    }

    /// Executes an instruction whose operand bytes were read.
    pub fn execute(&mut self, instr: Instruction, mode: AddressingMode, operand: u16)
        requires
            old(self).fits(7),
            supports(instr, mode),
        ensures
            *final(self) == old(self).after_execute(instr, mode, operand),
            final(self).wf(),
            final(self).cyc == old(self).cyc + base_cycles(instr, mode) + old(self).penalty(
                instr,
                mode,
                operand,
            ),
    {
        match instr {
            Instruction::Adc | Instruction::And | Instruction::Eor | Instruction::Ora | Instruction::Sbc | Instruction::Cmp | Instruction::Lda | Instruction::Ldx | Instruction::Ldy | Instruction::Cpx | Instruction::Cpy | Instruction::Bit => self.execute_read(instr, mode, operand),
            Instruction::Sta | Instruction::Stx | Instruction::Sty | Instruction::Asl | Instruction::Lsr | Instruction::Rol | Instruction::Ror | Instruction::Inc | Instruction::Dec => self.execute_write(instr, mode, operand),
            Instruction::Bpl | Instruction::Bmi | Instruction::Bvc | Instruction::Bvs | Instruction::Bcc | Instruction::Bcs | Instruction::Bne | Instruction::Beq | Instruction::Jmp | Instruction::Jsr | Instruction::Rts | Instruction::Brk | Instruction::Rti => self.execute_flow(instr, mode, operand),
            Instruction::Pha | Instruction::Php | Instruction::Pla | Instruction::Plp | Instruction::Tax | Instruction::Tay | Instruction::Txa | Instruction::Tya | Instruction::Tsx | Instruction::Txs => self.execute_stack(instr, mode, operand),
            Instruction::Clc | Instruction::Cld | Instruction::Cli | Instruction::Clv | Instruction::Dex | Instruction::Dey | Instruction::Inx | Instruction::Iny | Instruction::Nop | Instruction::Sec | Instruction::Sed | Instruction::Sei => self.execute_register(instr, mode, operand),
        }
    }

    /// Reads one instruction at the program counter, with its operand, and
    /// executes it.  The cycle counter advances by the base count of the
    /// instruction, plus one when a read crosses a page, plus one for a
    /// branch taken and one more when the branch leaves the page.
    pub fn fetch_decode_and_execute(&mut self) -> (r: Result<(), EmuError>)
        requires
            old(self).fits(7),
        ensures
            (r, *final(self)) == old(self).stepping(),
            final(self).wf(),
            final(self).cyc == old(self).cyc + old(self).step_cycles(),
    {
        proof {
            reveal(Cpu::stepping);
        }
        let opcode: u8 = self.read_opcode();
        match Self::decode(opcode) {
            None => Err(EmuError::UnimplementedOpcode(opcode)),
            Some((instr, mode)) => {
                let operand: u16 = self.fetch_operand(mode);
                self.execute(instr, mode, operand);
                match self.bus.fault() {
                    Some(a) => Err(EmuError::BusUnreachable(a)),
                    None => Ok(()),
                }
            },
        }
    }
}

/// Whether the instruction belongs to the group that `execute_read` executes.
pub open spec fn in_read_group(instr: Instruction) -> bool {
    match instr {
        Instruction::Adc | Instruction::And | Instruction::Eor | Instruction::Ora | Instruction::Sbc | Instruction::Cmp | Instruction::Lda | Instruction::Ldx | Instruction::Ldy | Instruction::Cpx | Instruction::Cpy | Instruction::Bit => true,
        _ => false,
    }
}

/// Whether the instruction belongs to the group that `execute_write` executes.
pub open spec fn in_write_group(instr: Instruction) -> bool {
    match instr {
        Instruction::Sta | Instruction::Stx | Instruction::Sty | Instruction::Asl | Instruction::Lsr | Instruction::Rol | Instruction::Ror | Instruction::Inc | Instruction::Dec => true,
        _ => false,
    }
}

/// Whether the instruction belongs to the group that `execute_flow` executes.
pub open spec fn in_flow_group(instr: Instruction) -> bool {
    match instr {
        Instruction::Bpl | Instruction::Bmi | Instruction::Bvc | Instruction::Bvs | Instruction::Bcc | Instruction::Bcs | Instruction::Bne | Instruction::Beq | Instruction::Jmp | Instruction::Jsr | Instruction::Rts | Instruction::Brk | Instruction::Rti => true,
        _ => false,
    }
}

/// Whether the instruction belongs to the group that `execute_stack` executes.
pub open spec fn in_stack_group(instr: Instruction) -> bool {
    match instr {
        Instruction::Pha | Instruction::Php | Instruction::Pla | Instruction::Plp | Instruction::Tax | Instruction::Tay | Instruction::Txa | Instruction::Tya | Instruction::Tsx | Instruction::Txs => true,
        _ => false,
    }
}

/// Whether the instruction belongs to the group that `execute_register` executes.
pub open spec fn in_register_group(instr: Instruction) -> bool {
    match instr {
        Instruction::Clc | Instruction::Cld | Instruction::Cli | Instruction::Clv | Instruction::Dex | Instruction::Dey | Instruction::Inx | Instruction::Iny | Instruction::Nop | Instruction::Sec | Instruction::Sed | Instruction::Sei => true,
        _ => false,
    }
}

/// The operand byte of a branch as a distance.
pub open spec fn signed_offset(operand: u16) -> int {
    offset_of(operand) + 0
}

/// A byte as a word.
pub open spec fn widened(b: u8) -> u16 {
    crate::util::word_of(b, 0)
}

/// Every instruction byte stands for an instruction in a mode in which
/// the instruction exists.
pub proof fn lemma_decoded_is_supported(opcode: u8)
    ensures
        decoded(opcode) matches Some(d) ==> supports(d.0, d.1),
{
}

/// A step succeeds exactly when the byte at the program counter is an
/// instruction and no address has reached a bank the cartridge does not
/// hold; the two errors name the byte and the address.
pub proof fn lemma_step_outcome(cpu: Cpu)
    ensures
        match cpu.stepping().0 {
            Ok(_) => decoded(cpu.fetching_byte().0) is Some && cpu.stepping().1.bus.fault_of()
                is None,
            Err(EmuError::UnimplementedOpcode(b)) => b == cpu.fetching_byte().0 && decoded(b)
                is None,
            Err(EmuError::BusUnreachable(a)) => decoded(cpu.fetching_byte().0) is Some
                && cpu.stepping().1.bus.fault_of() == Some(a),
            Err(_) => false,
        },
{
    reveal(Cpu::stepping);
}

/// Beyond its base count an instruction takes no cycle, with two
/// exceptions: a read in one of the modes `addr,X`, `addr,Y` and `(addr),Y`
/// takes one more when forming its address crosses a page, and a branch
/// that is taken takes one more, or two when its target lies on another
/// page than the instruction that follows it.
pub proof fn lemma_penalty_cases(cpu: Cpu, instr: Instruction, mode: AddressingMode, operand: u16)
    ensures
        branch_test(instr) is None && !is_read(instr) ==> cpu.penalty(instr, mode, operand) == 0,
        is_read(instr) && !(mode is AbsoluteX || mode is AbsoluteY || mode is IndirectIndexed)
            ==> cpu.penalty(instr, mode, operand) == 0,
        is_read(instr) ==> cpu.penalty(instr, mode, operand) == (if cpu.crossing(mode, operand) {
            1int
        } else {
            0int
        }),
        branch_test(instr) matches Some(t) ==> cpu.penalty(instr, mode, operand) == (if cpu.p.has(
            t.0,
        ) != t.1 {
            0int
        } else if page_crossed(cpu.pc, offset_of(operand) as int) {
            2int
        } else {
            1int
        }),
{
}

/// An instruction in a mode in which it exists takes between two and
/// seven cycles, penalties included.
pub proof fn lemma_cycles_bound(cpu: Cpu, instr: Instruction, mode: AddressingMode, operand: u16)
    requires
        supports(instr, mode),
    ensures
        2 <= base_cycles(instr, mode) <= 7,
        0 <= cpu.penalty(instr, mode, operand) <= 2,
        2 <= base_cycles(instr, mode) + cpu.penalty(instr, mode, operand) <= 7,
{
}

} // verus!
