use nes::cartridge::Cartridge;
use nes::cpu::instruction::Instruction;
use nes::cpu::status::{Flag, Status};
use nes::cpu::{AddressingMode, Cpu, Register};
use nes::error::EmuError;
use nes::util::Config;

fn mock_cpu() -> Box<Cpu> {
    let mut file = vec![0x4E, 0x45, 0x53, 0x1A, 0, 1, 0, 0];
    file.extend_from_slice(&[0u8; 8]);
    file.extend(std::iter::repeat(0u8).take(0x2000));
    let cartridge = Cartridge::new(&file).unwrap();
    Box::new(Cpu::new(&Config::new("mock.nes"), cartridge, [0; 0x2000], 1789773, true))
}

fn poke(cpu: &mut Cpu, addr: u16, bytes: &[u8]) {
    for (i, b) in bytes.iter().enumerate() {
        cpu.bus.write_u8(addr.wrapping_add(i as u16), *b);
    }
}

fn run(cpu: &mut Cpu, program: &[u8]) -> usize {
    poke(cpu, 0x8000, program);
    cpu.pc = 0x8000;
    let before = cpu.cyc;
    assert_eq!(cpu.fetch_decode_and_execute(), Ok(()));
    cpu.cyc - before
}

/// The documented cycle counts, without penalties.
fn reference_cycles() -> Vec<(u8, usize)> {
    vec![
        (0x69, 2), (0x65, 3), (0x75, 4), (0x6D, 4), (0x7D, 4), (0x79, 4), (0x61, 6), (0x71, 5),
        (0x29, 2), (0x25, 3), (0x35, 4), (0x2D, 4), (0x3D, 4), (0x39, 4), (0x21, 6), (0x31, 5),
        (0x0A, 2), (0x06, 5), (0x16, 6), (0x0E, 6), (0x1E, 7),
        (0x90, 2), (0xB0, 2), (0xF0, 2), (0x30, 2), (0xD0, 2), (0x10, 2), (0x50, 2), (0x70, 2),
        (0x24, 3), (0x2C, 4), (0x00, 7),
        (0x18, 2), (0xD8, 2), (0x58, 2), (0xB8, 2),
        (0xC9, 2), (0xC5, 3), (0xD5, 4), (0xCD, 4), (0xDD, 4), (0xD9, 4), (0xC1, 6), (0xD1, 5),
        (0xE0, 2), (0xE4, 3), (0xEC, 4), (0xC0, 2), (0xC4, 3), (0xCC, 4),
        (0xC6, 5), (0xD6, 6), (0xCE, 6), (0xDE, 7), (0xCA, 2), (0x88, 2),
        (0x49, 2), (0x45, 3), (0x55, 4), (0x4D, 4), (0x5D, 4), (0x59, 4), (0x41, 6), (0x51, 5),
        (0xE6, 5), (0xF6, 6), (0xEE, 6), (0xFE, 7), (0xE8, 2), (0xC8, 2),
        (0x4C, 3), (0x6C, 5), (0x20, 6),
        (0xA9, 2), (0xA5, 3), (0xB5, 4), (0xAD, 4), (0xBD, 4), (0xB9, 4), (0xA1, 6), (0xB1, 5),
        (0xA2, 2), (0xA6, 3), (0xB6, 4), (0xAE, 4), (0xBE, 4),
        (0xA0, 2), (0xA4, 3), (0xB4, 4), (0xAC, 4), (0xBC, 4),
        (0x4A, 2), (0x46, 5), (0x56, 6), (0x4E, 6), (0x5E, 7),
        (0xEA, 2),
        (0x09, 2), (0x05, 3), (0x15, 4), (0x0D, 4), (0x1D, 4), (0x19, 4), (0x01, 6), (0x11, 5),
        (0x48, 3), (0x08, 3), (0x68, 4), (0x28, 4),
        (0x2A, 2), (0x26, 5), (0x36, 6), (0x2E, 6), (0x3E, 7),
        (0x6A, 2), (0x66, 5), (0x76, 6), (0x6E, 6), (0x7E, 7),
        (0x40, 6), (0x60, 6),
        (0xE9, 2), (0xE5, 3), (0xF5, 4), (0xED, 4), (0xFD, 4), (0xF9, 4), (0xE1, 6), (0xF1, 5),
        (0x38, 2), (0xF8, 2), (0x78, 2),
        (0x85, 3), (0x95, 4), (0x8D, 4), (0x9D, 5), (0x99, 5), (0x81, 6), (0x91, 6),
        (0x86, 3), (0x96, 4), (0x8E, 4), (0x84, 3), (0x94, 4), (0x8C, 4),
        (0xAA, 2), (0xA8, 2), (0xBA, 2), (0x8A, 2), (0x9A, 2), (0x98, 2),
    ]
}

#[test]
fn every_instruction_takes_its_documented_cycles() {
    let table = reference_cycles();
    assert_eq!(table.len(), 151);
    for (opcode, cycles) in table {
        let mut cpu = mock_cpu();
        // No index, pointers inside a page, branches not taken.
        poke(&mut cpu, 0x0010, &[0x00, 0x03]);
        cpu.p = Status::from_byte(match opcode {
            0x90 | 0x10 | 0xD0 | 0x50 => 0xFF,
            _ => 0x00,
        });
        let spent = run(&mut cpu, &[opcode, 0x10, 0x03]);
        assert_eq!(spent, cycles, "opcode {opcode:02X}");
    }
}

#[test]
fn bytes_outside_the_instruction_set_are_reported() {
    let known: Vec<u8> = reference_cycles().iter().map(|(op, _)| *op).collect();
    for opcode in 0..=255u8 {
        assert_eq!(Cpu::decode(opcode).is_some(), known.contains(&opcode), "opcode {opcode:02X}");
    }
    let mut cpu = mock_cpu();
    poke(&mut cpu, 0x8000, &[0x02]);
    cpu.pc = 0x8000;
    assert_eq!(cpu.fetch_decode_and_execute(), Err(EmuError::UnimplementedOpcode(0x02)));
    assert_eq!(cpu.pc, 0x8001);
    assert_eq!(cpu.cyc, 0);
    assert_eq!(Cpu::decode(0x6C), Some((Instruction::Jmp, AddressingMode::Indirect)));
    assert_eq!(Cpu::decode(0xB6), Some((Instruction::Ldx, AddressingMode::ZeroPageY)));
}

#[test]
fn indexed_reads_pay_for_crossing_a_page() {
    for (opcode, register) in [(0xBDu8, 1usize), (0xB9, 2), (0x7D, 1), (0x19, 2), (0xDD, 1), (0xBE, 2), (0xBC, 1)] {
        let mut cpu = mock_cpu();
        cpu.regs[register] = 0x10;
        assert_eq!(run(&mut cpu, &[opcode, 0xF0, 0x12]), 5, "opcode {opcode:02X}");
        let mut cpu = mock_cpu();
        cpu.regs[register] = 0x0F;
        assert_eq!(run(&mut cpu, &[opcode, 0xF0, 0x12]), 4, "opcode {opcode:02X}");
    }
    for opcode in [0xB1u8, 0x71, 0x11, 0xD1, 0xF1, 0x31, 0x51] {
        let mut cpu = mock_cpu();
        poke(&mut cpu, 0x0040, &[0xF0, 0x12]);
        cpu.regs[2] = 0x10;
        assert_eq!(run(&mut cpu, &[opcode, 0x40]), 6, "opcode {opcode:02X}");
        let mut cpu = mock_cpu();
        poke(&mut cpu, 0x0040, &[0xF0, 0x12]);
        cpu.regs[2] = 0x0F;
        assert_eq!(run(&mut cpu, &[opcode, 0x40]), 5, "opcode {opcode:02X}");
    }
    // Stores and modifications in place never pay.
    for (opcode, cycles) in [(0x9Du8, 5usize), (0x99, 5), (0x91, 6), (0xFE, 7), (0x1E, 7)] {
        let mut cpu = mock_cpu();
        poke(&mut cpu, 0x0040, &[0xF0, 0x12]);
        cpu.regs[1] = 0x10;
        cpu.regs[2] = 0x10;
        let program = if opcode == 0x91 { vec![opcode, 0x40] } else { vec![opcode, 0xF0, 0x12] };
        assert_eq!(run(&mut cpu, &program), cycles, "opcode {opcode:02X}");
    }
}

#[test]
fn branches_pay_for_jumping_and_for_leaving_the_page() {
    let cases = [
        (0x90u8, Flag::Carry, false),
        (0xB0, Flag::Carry, true),
        (0xF0, Flag::Zero, true),
        (0xD0, Flag::Zero, false),
        (0x30, Flag::Negative, true),
        (0x10, Flag::Negative, false),
        (0x70, Flag::Overflow, true),
        (0x50, Flag::Overflow, false),
    ];
    for (opcode, flag, wanted) in cases {
        let mut cpu = mock_cpu();
        cpu.p.set(flag, !wanted);
        assert_eq!(run(&mut cpu, &[opcode, 0x20]), 2);
        assert_eq!(cpu.pc, 0x8002);
        let mut cpu = mock_cpu();
        cpu.p.set(flag, wanted);
        assert_eq!(run(&mut cpu, &[opcode, 0x20]), 3);
        assert_eq!(cpu.pc, 0x8022);
        let mut cpu = mock_cpu();
        cpu.p.set(flag, wanted);
        assert_eq!(run(&mut cpu, &[opcode, 0xFB]), 4);
        assert_eq!(cpu.pc, 0x7FFD);
    }
}

#[test]
fn loads_set_zero_and_negative() {
    let mut cpu = mock_cpu();
    run(&mut cpu, &[0xA9, 0x00]);
    assert_eq!(cpu.regs[0], 0);
    assert!(cpu.p.get(Flag::Zero) && !cpu.p.get(Flag::Negative));
    run(&mut cpu, &[0xA2, 0x80]);
    assert_eq!(cpu.regs[1], 0x80);
    assert!(!cpu.p.get(Flag::Zero) && cpu.p.get(Flag::Negative));
    poke(&mut cpu, 0x0034, &[0x7F]);
    cpu.regs[1] = 4;
    run(&mut cpu, &[0xB4, 0x30]);
    assert_eq!(cpu.regs[2], 0x7F);
    poke(&mut cpu, 0x0003, &[0x55]);
    cpu.regs[2] = 4;
    run(&mut cpu, &[0xB6, 0xFF]);
    assert_eq!(cpu.regs[1], 0x55);
    poke(&mut cpu, 0x1234, &[0x66]);
    cpu.regs[1] = 0x34;
    run(&mut cpu, &[0xBD, 0x00, 0x12]);
    assert_eq!(cpu.regs[0], 0x66);
    poke(&mut cpu, 0x0020, &[0x34, 0x12]);
    cpu.regs[1] = 0x10;
    run(&mut cpu, &[0xA1, 0x10]);
    assert_eq!(cpu.regs[0], 0x66);
    poke(&mut cpu, 0x00FF, &[0x30]);
    poke(&mut cpu, 0x0000, &[0x12]);
    cpu.regs[2] = 4;
    run(&mut cpu, &[0xB1, 0xFF]);
    assert_eq!(cpu.regs[0], 0x66);
}

#[test]
fn stores_write_the_register() {
    let mut cpu = mock_cpu();
    cpu.regs = [0x11, 0x22, 0x33];
    run(&mut cpu, &[0x85, 0x10]);
    run(&mut cpu, &[0x96, 0x10]);
    run(&mut cpu, &[0x8C, 0x00, 0x03]);
    run(&mut cpu, &[0x9D, 0x00, 0x04]);
    poke(&mut cpu, 0x0080, &[0x00, 0x05]);
    run(&mut cpu, &[0x91, 0x80]);
    poke(&mut cpu, 0x00A2, &[0x00, 0x06]);
    run(&mut cpu, &[0x81, 0x80]);
    assert_eq!(cpu.bus.read_u8(0x0010), 0x11);
    assert_eq!(cpu.bus.read_u8(0x0043), 0x22);
    assert_eq!(cpu.bus.read_u8(0x0300), 0x33);
    assert_eq!(cpu.bus.read_u8(0x0422), 0x11);
    assert_eq!(cpu.bus.read_u8(0x0533), 0x11);
    assert_eq!(cpu.bus.read_u8(0x0600), 0x11);
}

#[test]
fn subtraction_borrows_through_the_carry() {
    let mut cpu = mock_cpu();
    cpu.regs[0] = 0x50;
    cpu.p.set(Flag::Carry, true);
    cpu.sbc(0xF0, AddressingMode::Immediate);
    assert_eq!(cpu.regs[0], 0x60);
    assert!(!cpu.p.get(Flag::Carry));
    assert!(!cpu.p.get(Flag::Overflow));
    cpu.regs[0] = 0x50;
    cpu.p.set(Flag::Carry, true);
    cpu.sbc(0xB0, AddressingMode::Immediate);
    assert_eq!(cpu.regs[0], 0xA0);
    assert!(cpu.p.get(Flag::Overflow));
    assert!(cpu.p.get(Flag::Negative));
    cpu.regs[0] = 0x10;
    cpu.p.set(Flag::Carry, false);
    cpu.sbc(0x0F, AddressingMode::Immediate);
    assert_eq!(cpu.regs[0], 0x00);
    assert!(cpu.p.get(Flag::Zero));
    assert!(cpu.p.get(Flag::Carry));
    cpu.regs[0] = 0xFF;
    cpu.p.set(Flag::Carry, true);
    cpu.adc(0x00, AddressingMode::Immediate);
    assert_eq!(cpu.regs[0], 0x00);
    assert!(cpu.p.get(Flag::Carry) && cpu.p.get(Flag::Zero) && !cpu.p.get(Flag::Overflow));
}

#[test]
fn logic_and_comparisons() {
    let mut cpu = mock_cpu();
    cpu.regs[0] = 0b1100_1010;
    cpu.and(0b1010_0110, AddressingMode::Immediate);
    assert_eq!(cpu.regs[0], 0b1000_0010);
    cpu.ora(0b0001_0001, AddressingMode::Immediate);
    assert_eq!(cpu.regs[0], 0b1001_0011);
    cpu.eor(0b1001_0011, AddressingMode::Immediate);
    assert_eq!(cpu.regs[0], 0);
    assert!(cpu.p.get(Flag::Zero));
    cpu.regs = [0x40, 0x10, 0x90];
    cpu.cmp(0x40, AddressingMode::Immediate);
    assert!(cpu.p.get(Flag::Zero) && cpu.p.get(Flag::Carry) && !cpu.p.get(Flag::Negative));
    cpu.cpx(0x20, AddressingMode::Immediate);
    assert!(!cpu.p.get(Flag::Zero) && !cpu.p.get(Flag::Carry) && cpu.p.get(Flag::Negative));
    cpu.cpy(0x10, AddressingMode::Immediate);
    assert!(!cpu.p.get(Flag::Zero) && cpu.p.get(Flag::Carry) && cpu.p.get(Flag::Negative));
    assert_eq!(cpu.regs, [0x40, 0x10, 0x90]);
    poke(&mut cpu, 0x0010, &[0b1100_0000]);
    cpu.regs[0] = 0b0011_1111;
    cpu.bit(0x10, AddressingMode::ZeroPage);
    assert!(cpu.p.get(Flag::Zero) && cpu.p.get(Flag::Overflow) && cpu.p.get(Flag::Negative));
    poke(&mut cpu, 0x0010, &[0b0000_0001]);
    cpu.bit(0x10, AddressingMode::ZeroPage);
    assert!(!cpu.p.get(Flag::Zero) && !cpu.p.get(Flag::Overflow) && !cpu.p.get(Flag::Negative));
}

#[test]
fn shifts_and_rotations() {
    let mut cpu = mock_cpu();
    cpu.regs[0] = 0b1000_0001;
    cpu.asl(0, AddressingMode::Accumulator);
    assert_eq!(cpu.regs[0], 0b0000_0010);
    assert!(cpu.p.get(Flag::Carry));
    cpu.rol(0, AddressingMode::Accumulator);
    assert_eq!(cpu.regs[0], 0b0000_0101);
    assert!(!cpu.p.get(Flag::Carry));
    cpu.lsr(0, AddressingMode::Accumulator);
    assert_eq!(cpu.regs[0], 0b0000_0010);
    assert!(cpu.p.get(Flag::Carry));
    cpu.ror(0, AddressingMode::Accumulator);
    assert_eq!(cpu.regs[0], 0b1000_0001);
    assert!(!cpu.p.get(Flag::Carry));
    assert!(cpu.p.get(Flag::Negative));
    poke(&mut cpu, 0x0310, &[0x80]);
    cpu.regs[1] = 0x10;
    cpu.asl(0x0300, AddressingMode::AbsoluteX);
    assert_eq!(cpu.bus.read_u8(0x0310), 0);
    assert!(cpu.p.get(Flag::Carry) && cpu.p.get(Flag::Zero));
    cpu.ror(0x0310, AddressingMode::Absolute);
    assert_eq!(cpu.bus.read_u8(0x0310), 0x80);
    poke(&mut cpu, 0x0005, &[0xFF]);
    cpu.regs[1] = 0x06;
    cpu.inc(0xFF, AddressingMode::ZeroPageX);
    assert_eq!(cpu.bus.read_u8(0x0005), 0);
    assert!(cpu.p.get(Flag::Zero));
    cpu.dec(0x05, AddressingMode::ZeroPage);
    assert_eq!(cpu.bus.read_u8(0x0005), 0xFF);
    assert!(cpu.p.get(Flag::Negative));
}

#[test]
fn registers_step_and_transfer() {
    let mut cpu = mock_cpu();
    cpu.regs = [0x80, 0xFF, 0x00];
    cpu.inx();
    assert_eq!(cpu.regs[1], 0);
    assert!(cpu.p.get(Flag::Zero));
    cpu.dey();
    assert_eq!(cpu.regs[2], 0xFF);
    assert!(cpu.p.get(Flag::Negative));
    cpu.iny();
    cpu.dex();
    assert_eq!(cpu.regs, [0x80, 0xFF, 0x00]);
    cpu.tax();
    assert_eq!(cpu.regs[1], 0x80);
    cpu.tay();
    assert_eq!(cpu.regs[2], 0x80);
    cpu.regs[1] = 0x42;
    cpu.txa();
    assert_eq!(cpu.regs[0], 0x42);
    cpu.regs[2] = 0;
    cpu.tya();
    assert_eq!(cpu.regs[0], 0);
    assert!(cpu.p.get(Flag::Zero));
    cpu.txs();
    assert_eq!(cpu.sp, 0x42);
    assert!(cpu.p.get(Flag::Zero));
    cpu.sp = 0x99;
    cpu.tsx();
    assert_eq!(cpu.regs[1], 0x99);
    assert!(cpu.p.get(Flag::Negative));
    assert_eq!(cpu.cyc, 2 * 10);
    assert_eq!(Register::Y.index(), 2);
}

#[test]
fn flag_instructions() {
    let mut cpu = mock_cpu();
    cpu.sec();
    cpu.sed();
    cpu.sei();
    assert_eq!(cpu.flags(), 0b0010_1101);
    cpu.p.set(Flag::Overflow, true);
    cpu.clc();
    cpu.cld();
    cpu.cli();
    cpu.clv();
    assert_eq!(cpu.flags(), 0b0010_0000);
    cpu.nop();
    assert_eq!(cpu.cyc, 16);
    assert_eq!(Status::new().to_byte(), 0x20);
    assert_eq!(Status::from_byte(0xA5).to_byte(), 0xA5);
    assert_eq!(Flag::Negative.index(), 7);
}

#[test]
fn stack_grows_down_in_page_one() {
    let mut cpu = mock_cpu();
    cpu.sp = 0xFF;
    cpu.regs[0] = 0xAB;
    cpu.pha();
    assert_eq!(cpu.sp, 0xFE);
    assert_eq!(cpu.bus.read_u8(0x01FF), 0xAB);
    cpu.p = Status::from_byte(0b1100_0011);
    cpu.php();
    assert_eq!(cpu.bus.read_u8(0x01FE), 0b1111_0011);
    cpu.regs[0] = 0;
    cpu.p = Status::from_byte(0);
    cpu.plp();
    assert_eq!(cpu.flags(), 0b1110_0011);
    cpu.pla();
    assert_eq!(cpu.regs[0], 0xAB);
    assert!(cpu.p.get(Flag::Negative));
    assert_eq!(cpu.sp, 0xFF);
    cpu.sp = 0x00;
    cpu.push(1);
    assert_eq!(cpu.sp, 0xFF);
    assert_eq!(cpu.bus.read_u8(0x0100), 1);
    assert_eq!(cpu.pull(), 1);
    cpu.push_u16(0x1234);
    assert_eq!(cpu.bus.read_u8(0x0100), 0x12);
    assert_eq!(cpu.bus.read_u8(0x01FF), 0x34);
    assert_eq!(cpu.pull_u16(), 0x1234);
    cpu.push(0xFF);
    let pulled = cpu.pull_flags();
    assert_eq!(pulled.to_byte(), 0b1110_1111);
}

#[test]
fn jumps_calls_and_returns() {
    let mut cpu = mock_cpu();
    cpu.sp = 0xFF;
    run(&mut cpu, &[0x4C, 0x34, 0x12]);
    assert_eq!(cpu.pc, 0x1234);
    poke(&mut cpu, 0x02FF, &[0x78]);
    poke(&mut cpu, 0x0200, &[0x56]);
    poke(&mut cpu, 0x0300, &[0x99]);
    run(&mut cpu, &[0x6C, 0xFF, 0x02]);
    assert_eq!(cpu.pc, 0x5678);
    run(&mut cpu, &[0x20, 0x00, 0x90]);
    assert_eq!(cpu.pc, 0x9000);
    assert_eq!(cpu.bus.read_u8(0x01FF), 0x80);
    assert_eq!(cpu.bus.read_u8(0x01FE), 0x02);
    poke(&mut cpu, 0x9000, &[0x60]);
    assert_eq!(cpu.fetch_decode_and_execute(), Ok(()));
    assert_eq!(cpu.pc, 0x8003);
    assert_eq!(cpu.sp, 0xFF);
    assert_eq!(cpu.ea_ind(0x02FF), (0x02FF, 0x0200));
    assert_eq!(cpu.ea_zp_idx(0xF0, 0x20), 0x0010);
    assert_eq!(cpu.ea_abs_idx(0xFFF0, 0x20), 0x0010);
    assert_eq!(cpu.ea_zp(0x12), 0x0012);
    assert_eq!(cpu.ea_abs(0x1234), 0x1234);
}

#[test]
fn software_interrupt_and_return() {
    let mut cpu = mock_cpu();
    cpu.sp = 0xFF;
    poke(&mut cpu, 0xFFFE, &[0x00, 0x90]);
    poke(&mut cpu, 0x9000, &[0x40]);
    cpu.p = Status::from_byte(0b1100_0001);
    assert_eq!(run(&mut cpu, &[0x00, 0xEA]), 7);
    assert_eq!(cpu.pc, 0x9000);
    assert!(cpu.p.get(Flag::InterruptDisable));
    assert_eq!(cpu.bus.read_u8(0x01FF), 0x80);
    assert_eq!(cpu.bus.read_u8(0x01FE), 0x02);
    assert_eq!(cpu.bus.read_u8(0x01FD), 0b1111_0001);
    assert_eq!(cpu.fetch_decode_and_execute(), Ok(()));
    assert_eq!(cpu.pc, 0x8002);
    assert_eq!(cpu.flags(), 0b1110_0001);
    assert_eq!(cpu.sp, 0xFF);
}

#[test]
fn hardware_interrupts_push_the_flags_with_break_clear() {
    let mut cpu = mock_cpu();
    cpu.sp = 0xFF;
    poke(&mut cpu, 0xFFFA, &[0x00, 0xA0]);
    poke(&mut cpu, 0xFFFE, &[0x00, 0xB0]);
    cpu.pc = 0x8123;
    cpu.p = Status::from_byte(0b0101_0001);
    cpu.handle_nmi();
    assert_eq!(cpu.pc, 0xA000);
    assert_eq!(cpu.cyc, 14);
    assert_eq!(cpu.bus.read_u8(0x01FF), 0x81);
    assert_eq!(cpu.bus.read_u8(0x01FE), 0x23);
    assert_eq!(cpu.bus.read_u8(0x01FD), 0b0110_0001);
    assert!(cpu.p.get(Flag::InterruptDisable));
    cpu.handle_irq();
    assert_eq!(cpu.pc, 0xA000);
    assert_eq!(cpu.cyc, 14);
    cpu.p.set(Flag::InterruptDisable, false);
    cpu.handle_irq();
    assert_eq!(cpu.pc, 0xB000);
    assert_eq!(cpu.cyc, 21);
    assert_eq!(cpu.sp, 0xF9);
}

#[test]
fn memory_is_read_at_the_program_counter() {
    let mut cpu = mock_cpu();
    poke(&mut cpu, 0xFFFF, &[0x11]);
    poke(&mut cpu, 0x0000, &[0x22, 0x33]);
    cpu.pc = 0xFFFF;
    assert_eq!(cpu.read_u8(), 0x11);
    assert_eq!(cpu.pc, 0);
    assert_eq!(cpu.read_u16(), 0x3322);
    assert_eq!(cpu.pc, 2);
    cpu.pc = 0xFFFF;
    assert_eq!(cpu.read_opcode(), 0x11);
    assert_eq!(cpu.read_word_operand(), 0x3322);
    cpu.pc = 0;
    assert_eq!(cpu.read_byte_operand(), 0x22);
    assert_eq!(cpu.read_zp(1), 0x33);
    assert_eq!(cpu.read_zp_idx(0xFF, 2), 0x33);
    assert_eq!(cpu.read_abs(0xFFFF), 0x11);
    assert_eq!(cpu.read_abs_idx(0xFFFE, 3), 0x33);
    assert_eq!(cpu.read_ind(0xFFFF), 0x0011);
    poke(&mut cpu, 0xFF00, &[0x44]);
    assert_eq!(cpu.read_ind(0xFFFF), 0x4411);
    poke(&mut cpu, 0x3322, &[0x77]);
    assert_eq!(cpu.read_idx_ind(0xFE, 2), 0x77);
    assert_eq!(cpu.read_ind_idx(0x00, 0), 0x77);
    assert_eq!(cpu.cyc, 0);
    poke(&mut cpu, 0x3421, &[0x88]);
    assert_eq!(cpu.read_ind_idx(0x00, 0xFF), 0x88);
    assert_eq!(cpu.cyc, 1);
    cpu.tick(5);
    assert_eq!(cpu.cyc, 6);
}
