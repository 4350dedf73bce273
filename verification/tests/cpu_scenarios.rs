use nes::cartridge::{Cartridge, MapperType, Mirroring};
use nes::cpu::status::Flag;
use nes::cpu::{AddressingMode, Cpu};
use nes::util::Config;

fn image(mapper: u8, prg_banks: u8, chr_banks: u8, flags6_low: u8) -> Vec<u8> {
    let mut file = vec![0x4E, 0x45, 0x53, 0x1A, prg_banks, chr_banks];
    file.push(((mapper & 0x0F) << 4) | flags6_low);
    file.push(mapper & 0xF0);
    file.extend_from_slice(&[0u8; 8]);
    file.extend(std::iter::repeat(0u8).take(prg_banks as usize * 0x4000));
    file.extend(std::iter::repeat(0u8).take(chr_banks as usize * 0x2000));
    file
}

fn mock_cpu() -> Box<Cpu> {
    let file = image(0, 0, 1, 0);
    let cartridge = Cartridge::new(&file).unwrap();
    assert!(cartridge.is_loadable(true));
    Box::new(Cpu::new(&Config::new("mock.nes"), cartridge, [0; 0x2000], 1789773, true))
}

fn poke(cpu: &mut Cpu, addr: u16, bytes: &[u8]) {
    for (i, b) in bytes.iter().enumerate() {
        cpu.bus.write_u8(addr.wrapping_add(i as u16), *b);
    }
}

#[test]
fn reset_loads_the_vector() {
    let mut file = image(0, 2, 1, 0);
    file[16 + 0x7FFC] = 0x34;
    file[16 + 0x7FFD] = 0x12;
    let cartridge = Cartridge::new(&file).unwrap();
    assert_eq!(cartridge.mapper_type, MapperType::Nrom);
    assert_eq!(cartridge.mirroring, Mirroring::Horizontal);
    assert!(cartridge.is_loadable(false));
    let mut cpu = Box::new(Cpu::new(&Config::new("a.nes"), cartridge, [0; 0x2000], 1789773, false));
    cpu.reset();
    assert_eq!(cpu.pc, 0x1234);
    assert_eq!(cpu.sp, 0xFD);
    assert!(cpu.p.get(Flag::InterruptDisable));
    assert_eq!(cpu.cyc, 7);
}

#[test]
fn adc_sets_carry_and_overflow() {
    let mut cpu = mock_cpu();
    cpu.regs[0] = 0x50;
    cpu.p.set(Flag::Carry, false);
    cpu.adc(0x50, AddressingMode::Immediate);
    assert_eq!(cpu.regs[0], 0xA0);
    assert!(!cpu.p.get(Flag::Zero));
    assert!(cpu.p.get(Flag::Negative));
    assert!(!cpu.p.get(Flag::Carry));
    assert!(cpu.p.get(Flag::Overflow));

    let mut cpu = mock_cpu();
    cpu.regs[0] = 0x50;
    cpu.p.set(Flag::Carry, false);
    cpu.adc(0xD0, AddressingMode::Immediate);
    assert_eq!(cpu.regs[0], 0x20);
    assert!(cpu.p.get(Flag::Carry));
    assert!(!cpu.p.get(Flag::Overflow));
}

#[test]
fn branch_across_a_page_takes_four_cycles() {
    let mut cpu = mock_cpu();
    poke(&mut cpu, 0x80F0, &[0xD0, 0x10]);
    cpu.pc = 0x80F0;
    cpu.p.set(Flag::Zero, false);
    let before = cpu.cyc;
    assert!(cpu.fetch_decode_and_execute().is_ok());
    assert_eq!(cpu.pc, 0x8102);
    assert_eq!(cpu.cyc - before, 4);

    let mut cpu = mock_cpu();
    poke(&mut cpu, 0x80F0, &[0xD0, 0x10]);
    cpu.pc = 0x80F0;
    cpu.p.set(Flag::Zero, true);
    let before = cpu.cyc;
    assert!(cpu.fetch_decode_and_execute().is_ok());
    assert_eq!(cpu.pc, 0x80F2);
    assert_eq!(cpu.cyc - before, 2);
}

#[test]
fn oam_dma_copies_a_page_in_513_or_514_cycles() {
    for start in [100usize, 101usize] {
        let mut cpu = mock_cpu();
        for i in 0..256u16 {
            cpu.bus.write_u8(0x0200 + i, (i as u8).wrapping_mul(3).wrapping_add(1));
        }
        cpu.cyc = start;
        cpu.dma(0x02);
        let expected = if start % 2 == 0 { 513 } else { 514 };
        assert_eq!(cpu.cyc - start, expected);
        let oam = cpu.bus.ppu().oam.sprites();
        for i in 0..256usize {
            assert_eq!(oam[i], (i as u8).wrapping_mul(3).wrapping_add(1));
        }
    }
}
