use nes::bus::mapper::mapper1::{ChrRomMode, PrgRomMode};
use nes::bus::mapper::{BankSettings, Mapper, Window};
use nes::cartridge::{Cartridge, Mirroring};
use nes::cpu::Cpu;
use nes::error::EmuError;
use nes::util::Config;

fn image(mapper: u8, prg_banks: u8, chr_banks: u8, flags6_low: u8) -> Vec<u8> {
    let mut file = vec![0x4E, 0x45, 0x53, 0x1A, prg_banks, chr_banks];
    file.push(((mapper & 0x0F) << 4) | flags6_low);
    file.push(mapper & 0xF0);
    file.extend_from_slice(&[0u8; 8]);
    for i in 0..prg_banks as usize * 0x4000 {
        // every 8 KiB bank is filled with its own number
        file.push((i / 0x2000) as u8);
    }
    for i in 0..chr_banks as usize * 0x2000 {
        // every 1 KiB bank is filled with its own number
        file.push((i / 0x400) as u8);
    }
    file
}

fn machine(mapper: u8, prg_banks: u8, chr_banks: u8) -> Box<Cpu> {
    let cartridge = Cartridge::new(&image(mapper, prg_banks, chr_banks, 0)).unwrap();
    assert!(cartridge.is_loadable(false));
    Box::new(Cpu::new(&Config::new("game.nes"), cartridge, [0; 0x2000], 1789773, false))
}

fn serial(cpu: &mut Cpu, addr: u16, value: u8) {
    for i in 0..5 {
        cpu.bus.write_u8(addr, (value >> i) & 1);
    }
}

#[test]
fn sixteen_kib_show_twice() {
    let mut cpu = machine(0, 1, 1);
    assert_eq!(cpu.bus.read_u8(0x8000), 0);
    assert_eq!(cpu.bus.read_u8(0xA000), 1);
    assert_eq!(cpu.bus.read_u8(0xC000), 0);
    assert_eq!(cpu.bus.read_u8(0xE000), 1);
    let mut big = machine(0, 2, 1);
    assert_eq!(big.bus.read_u8(0xC000), 2);
    assert_eq!(big.bus.read_u8(0xFFFF), 3);
    assert_eq!(big.bus.read_u16(0x9FFF), 0x0100);
}

#[test]
fn work_ram_mirrors_and_ports_repeat() {
    let mut cpu = machine(0, 1, 1);
    cpu.bus.write_u8(0x0123, 0x45);
    assert_eq!(cpu.bus.read_u8(0x0923), 0x45);
    assert_eq!(cpu.bus.read_u8(0x1923), 0x45);
    cpu.bus.write_u16(0x07FF, 0xBEEF);
    assert_eq!(cpu.bus.read_u8(0x07FF), 0xEF);
    assert_eq!(cpu.bus.read_u8(0x0800), 0xBE);
    assert_eq!(cpu.bus.read_u16(0x07FF), 0xBEEF);
    cpu.bus.write_u8(0x2003, 0x10);
    cpu.bus.write_u8(0x3FFC, 0x77);
    assert_eq!(cpu.bus.ppu().oam.sprites()[0x10], 0x77);
    assert_eq!(cpu.bus.read_u8(0x4017), 0);
    assert_eq!(cpu.bus.read_u8(0x5000), 0);
    assert_eq!(cpu.bus.read_u8(0x6000), 0);
    cpu.bus.write_u8(0x4014, 0x02);
    assert_eq!(cpu.bus.dma_request(), Some(0x02));
    cpu.bus.write_u8(0x8000, 0xFF);
    assert_eq!(cpu.bus.read_u8(0x8000), 0);
}

#[test]
fn game_pad_is_read_through_the_bus() {
    let mut cpu = machine(0, 1, 1);
    cpu.bus.controller().press(nes::controller::Btn::B);
    cpu.bus.write_u8(0x4016, 1);
    cpu.bus.write_u8(0x4016, 0);
    let reads: Vec<u8> = (0..9).map(|_| cpu.bus.read_u8(0x4016)).collect();
    assert_eq!(reads, vec![0, 1, 0, 0, 0, 0, 0, 0, 1]);
}

#[test]
fn serial_port_programs_control_and_program_bank() {
    let mut cpu = machine(1, 8, 1);
    cpu.bus.write_u8(0x8000, 0x80);
    serial(&mut cpu, 0x8000, 0);
    match &cpu.bus {
        Mapper::Mapper1(m) => {
            assert_eq!(m.prg_rom_mode, PrgRomMode::Switch32kB);
            assert_eq!(m.chr_rom_mode, ChrRomMode::Switch8kB);
            assert_eq!(m.bus.ppu.mem.mirroring, Mirroring::OneScreenLowerBank);
            assert_eq!(m.writes, 0);
        }
        _ => panic!("wrong mapper"),
    }
    serial(&mut cpu, 0xE000, 0);
    match &cpu.bus {
        Mapper::Mapper1(m) => assert_eq!(m.cur_bank, 0),
        _ => panic!("wrong mapper"),
    }
    assert_eq!(cpu.bus.read_u8(0x8000), 0);
    assert_eq!(cpu.bus.read_u8(0xFFFF), 3);
    serial(&mut cpu, 0xE000, 0b00110);
    assert_eq!(cpu.bus.read_u8(0x8000), 12);
    assert_eq!(cpu.bus.read_u8(0xFFFF), 15);
    assert!(cpu.bus.fault().is_none());
}

#[test]
fn fifth_write_commits_to_the_register_of_its_address() {
    let mut cpu = machine(1, 16, 1);
    let bits = [1u8, 0, 1, 1, 0];
    let addresses = [0x8000u16, 0xA123, 0xC456, 0x9FFF, 0xE000];
    for (bit, addr) in bits.iter().zip(addresses.iter()) {
        cpu.bus.write_u8(*addr, *bit);
    }
    match &cpu.bus {
        Mapper::Mapper1(m) => {
            assert_eq!(m.cur_bank, 0b01101);
            assert_eq!(m.prg_rom_mode, PrgRomMode::FixLastBank);
            assert_eq!(m.shift_reg.data, 0);
            assert_eq!(m.writes, 0);
        }
        _ => panic!("wrong mapper"),
    }
    assert_eq!(cpu.bus.read_u8(0x8000), 26);
    assert_eq!(cpu.bus.read_u8(0xBFFF), 27);
    assert_eq!(cpu.bus.read_u8(0xC000), 30);
}

#[test]
fn write_with_bit_seven_aborts_the_sequence() {
    let mut cpu = machine(1, 16, 1);
    cpu.bus.write_u8(0xE000, 1);
    cpu.bus.write_u8(0xE000, 1);
    cpu.bus.write_u8(0xE000, 1);
    cpu.bus.write_u8(0xE000, 0x81);
    match &cpu.bus {
        Mapper::Mapper1(m) => {
            assert_eq!(m.shift_reg.data, 0);
            assert_eq!(m.writes, 0);
            assert_eq!(m.cur_bank, 0);
        }
        _ => panic!("wrong mapper"),
    }
    serial(&mut cpu, 0xE000, 0b00010);
    assert_eq!(cpu.bus.read_u8(0x8000), 4);
}

#[test]
fn serial_port_modes_route_program_banks() {
    let mut cpu = machine(1, 8, 1);
    serial(&mut cpu, 0xE000, 5);
    serial(&mut cpu, 0x8000, 0b01000);
    assert_eq!(cpu.bus.read_u8(0x8000), 0);
    assert_eq!(cpu.bus.read_u8(0xC000), 10);
    serial(&mut cpu, 0xE000, 3);
    assert_eq!(cpu.bus.read_u8(0xC000), 6);
    serial(&mut cpu, 0x8000, 0b01100);
    assert_eq!(cpu.bus.read_u8(0x8000), 6);
    assert_eq!(cpu.bus.read_u8(0xC000), 14);
    match &cpu.bus {
        Mapper::Mapper1(m) => {
            assert_eq!(m.bus.ppu.mem.mirroring, Mirroring::OneScreenLowerBank);
        }
        _ => panic!("wrong mapper"),
    }
    serial(&mut cpu, 0x8000, 0b01111);
    match &cpu.bus {
        Mapper::Mapper1(m) => assert_eq!(m.bus.ppu.mem.mirroring, Mirroring::Horizontal),
        _ => panic!("wrong mapper"),
    }
    serial(&mut cpu, 0x8000, 0b01110);
    match &cpu.bus {
        Mapper::Mapper1(m) => assert_eq!(m.bus.ppu.mem.mirroring, Mirroring::Vertical),
        _ => panic!("wrong mapper"),
    }
}

#[test]
fn serial_port_switches_character_banks() {
    let mut cpu = machine(1, 2, 4);
    serial(&mut cpu, 0x8000, 0b11100);
    serial(&mut cpu, 0xA000, 3);
    serial(&mut cpu, 0xC000, 6);
    assert_eq!(cpu.bus.ppu().read(0x0000), 12);
    assert_eq!(cpu.bus.ppu().read(0x0FFF), 15);
    assert_eq!(cpu.bus.ppu().read(0x1000), 24);
    serial(&mut cpu, 0x8000, 0b01100);
    serial(&mut cpu, 0xA000, 0b00011);
    assert_eq!(cpu.bus.ppu().read(0x0000), 16);
    assert_eq!(cpu.bus.ppu().read(0x1FFF), 23);
    serial(&mut cpu, 0xC000, 1);
    assert_eq!(cpu.bus.ppu().read(0x1000), 20);
}

#[test]
fn work_ram_of_the_serial_mapper_is_kept() {
    let cartridge = Cartridge::new(&image(1, 2, 1, 0)).unwrap();
    let mut saved = [0u8; 0x2000];
    saved[0x10] = 0x99;
    let mut cpu = Box::new(Cpu::new(&Config::new("game.nes"), cartridge, saved, 1789773, false));
    assert_eq!(cpu.bus.read_u8(0x6010), 0x99);
    cpu.bus.write_u8(0x7FFF, 0x42);
    assert_eq!(cpu.bus.read_u8(0x7FFF), 0x42);
    let data = cpu.bus.save_data().unwrap();
    assert_eq!(data[0x10], 0x99);
    assert_eq!(data[0x1FFF], 0x42);
    serial(&mut cpu, 0xE000, 0b10000);
    assert_eq!(cpu.bus.read_u8(0x6010), 0);
    cpu.bus.write_u8(0x6010, 1);
    serial(&mut cpu, 0xE000, 0);
    assert_eq!(cpu.bus.read_u8(0x6010), 0x99);
    assert!(machine(0, 1, 1).bus.save_data().is_none());
}

#[test]
fn program_bank_past_the_rom_is_reported() {
    let mut cpu = machine(1, 2, 1);
    serial(&mut cpu, 0xE000, 5);
    cpu.pc = 0x8000;
    assert_eq!(cpu.bus.read_u8(0x8003), 0);
    assert_eq!(cpu.bus.fault(), Some(0x8003));
    assert_eq!(cpu.fetch_decode_and_execute(), Err(EmuError::BusUnreachable(0x8003)));
}

#[test]
fn lower_bank_switches_and_upper_bank_stays() {
    let mut cpu = machine(2, 8, 0);
    assert_eq!(cpu.bus.read_u8(0x8000), 0);
    assert_eq!(cpu.bus.read_u8(0xC000), 14);
    cpu.bus.write_u8(0x8000, 3);
    assert_eq!(cpu.bus.read_u8(0x8000), 6);
    assert_eq!(cpu.bus.read_u8(0xBFFF), 7);
    assert_eq!(cpu.bus.read_u8(0xFFFF), 15);
    cpu.bus.write_u8(0xFFFF, 0xFA);
    assert_eq!(cpu.bus.read_u8(0x8000), 4);
    match &cpu.bus {
        Mapper::Mapper2(m) => assert_eq!(m.cur_bank, 2),
        _ => panic!("wrong mapper"),
    }
}

#[test]
fn character_bank_switches() {
    let mut cpu = machine(3, 2, 4);
    assert_eq!(cpu.bus.ppu().read(0x0000), 0);
    cpu.bus.write_u8(0x8000, 0xFE);
    assert_eq!(cpu.bus.ppu().read(0x0000), 16);
    assert_eq!(cpu.bus.ppu().read(0x1FFF), 23);
    cpu.bus.write_u8(0xC000, 3);
    assert_eq!(cpu.bus.ppu().read(0x0400), 25);
    assert_eq!(cpu.bus.read_u8(0x8000), 0);
}

#[test]
fn thirty_two_kib_bank_and_page_switch() {
    let mut cpu = machine(7, 8, 0);
    assert_eq!(cpu.bus.read_u8(0x8000), 0);
    assert_eq!(cpu.bus.read_u8(0xFFFF), 3);
    cpu.bus.write_u8(0x8000, 0x13);
    assert_eq!(cpu.bus.read_u8(0x8000), 12);
    assert_eq!(cpu.bus.read_u8(0xFFFF), 15);
    assert_eq!(cpu.bus.ppu().mem.mmc7_vram_page, 1);
    cpu.bus.write_u8(0x8000, 0x04);
    assert_eq!(cpu.bus.read_u8(0x8000), 0);
    assert_eq!(cpu.bus.fault(), Some(0x8000));
}

#[test]
fn bank_registers_route_program_memory() {
    let mut cpu = machine(4, 8, 8);
    assert_eq!(cpu.bus.read_u8(0xE000), 15);
    assert_eq!(cpu.bus.read_u8(0x8000), 0);
    cpu.bus.write_u8(0x8000, 6);
    cpu.bus.write_u8(0x8001, 5);
    cpu.bus.write_u8(0x8000, 7);
    cpu.bus.write_u8(0x8001, 0xC9);
    assert_eq!(cpu.bus.read_u8(0x8000), 5);
    assert_eq!(cpu.bus.read_u8(0xA000), 9);
    assert_eq!(cpu.bus.read_u8(0xC000), 14);
    assert_eq!(cpu.bus.read_u8(0xE000), 15);
    cpu.bus.write_u8(0x8000, 0x46);
    assert_eq!(cpu.bus.read_u8(0x8000), 14);
    assert_eq!(cpu.bus.read_u8(0xC000), 5);
    assert_eq!(cpu.bus.read_u8(0xFFFF), 15);
}

#[test]
fn bank_registers_route_character_memory() {
    let mut cpu = machine(4, 2, 8);
    for (register, value) in [(0u8, 9u8), (1, 12), (2, 20), (3, 21), (4, 22), (5, 63)] {
        cpu.bus.write_u8(0x8000, register);
        cpu.bus.write_u8(0x8001, value);
    }
    assert_eq!(cpu.bus.ppu().read(0x0000), 8);
    assert_eq!(cpu.bus.ppu().read(0x0400), 9);
    assert_eq!(cpu.bus.ppu().read(0x0800), 12);
    assert_eq!(cpu.bus.ppu().read(0x1000), 20);
    assert_eq!(cpu.bus.ppu().read(0x1C00), 63);
    cpu.bus.write_u8(0x8000, 0x80);
    assert_eq!(cpu.bus.ppu().read(0x0000), 20);
    assert_eq!(cpu.bus.ppu().read(0x0C00), 63);
    assert_eq!(cpu.bus.ppu().read(0x1000), 8);
    assert_eq!(cpu.bus.ppu().read(0x1C00), 13);
}

#[test]
fn scanline_counter_registers() {
    let mut cpu = machine(4, 2, 1);
    cpu.bus.write_u8(0xC000, 7);
    cpu.bus.write_u8(0xE001, 0);
    let irq = cpu.bus.ppu().mem.mmc3.unwrap().irq;
    assert_eq!(irq.reload, 7);
    assert!(irq.enabled);
    let mut half = cpu.bus.ppu().mem.mmc3.unwrap();
    half.irq.counter = 3;
    half.irq.occurred = true;
    cpu.bus.ppu().mem.mmc3 = Some(half);
    assert!(cpu.bus.mapper_irq_line());
    cpu.bus.write_u8(0xC001, 0);
    assert_eq!(cpu.bus.ppu().mem.mmc3.unwrap().irq.counter, 0);
    cpu.bus.write_u8(0xE000, 0);
    let irq = cpu.bus.ppu().mem.mmc3.unwrap().irq;
    assert!(!irq.enabled);
    assert!(!irq.occurred);
    assert!(!cpu.bus.mapper_irq_line());
    cpu.bus.write_u8(0xA000, 1);
    assert_eq!(cpu.bus.ppu().mem.mirroring, Mirroring::Horizontal);
    cpu.bus.write_u8(0xA000, 0);
    assert_eq!(cpu.bus.ppu().mem.mirroring, Mirroring::Vertical);
    cpu.bus.write_u8(0x6000, 0x11);
    assert_eq!(cpu.bus.read_u8(0x6000), 0x11);
    cpu.bus.write_u8(0xA001, 0xC0);
    cpu.bus.write_u8(0x6000, 0x22);
    assert_eq!(cpu.bus.read_u8(0x6000), 0x11);
    cpu.bus.write_u8(0xA001, 0x00);
    assert_eq!(cpu.bus.read_u8(0x6000), 0);
    assert_eq!(cpu.bus.save_data().unwrap()[0], 0x11);
}

#[test]
fn scanline_counter_interrupts_once_per_line_group_while_drawing() {
    let mut cpu = machine(4, 2, 1);
    cpu.bus.write_u8(0x2000, 0x08);
    cpu.bus.write_u8(0x2001, 0x18);
    cpu.bus.write_u8(0xC000, 9);
    cpu.bus.write_u8(0xC001, 0);
    cpu.bus.write_u8(0xE001, 0);
    let mut lines = Vec::new();
    for _ in 0..341 * 262 {
        cpu.bus.ppu().tick();
        if cpu.bus.mapper_irq_line() {
            lines.push(cpu.bus.ppu().beam.scanline);
            cpu.bus.acknowledge();
        }
    }
    assert!(lines.len() >= 2, "{lines:?}");
    for pair in lines.windows(2) {
        assert_eq!(pair[1] - pair[0], 10, "{lines:?}");
    }
}

#[test]
fn routing_table_finds_windows_and_sets_banks() {
    let mut table = BankSettings::new(vec![(0, 0x8000..0xC000), (7, 0xC000..0x10000)]);
    assert_eq!(table.len, 2);
    assert_eq!(table.lookup(0x8000).unwrap().bank, 0);
    assert_eq!(table.lookup(0xBFFF).unwrap().bank, 0);
    assert_eq!(table.lookup(0xC000).unwrap().bank, 7);
    assert!(table.lookup(0x7FFF).is_none());
    assert!(table.lookup(0x10000).is_none());
    table.set_bank(3, 0x8000..0xC000);
    assert_eq!(table.lookup(0x9000).unwrap().bank, 3);
    table.set_bank(9, 0x9000..0xA000);
    assert_eq!(table.lookup(0x9000).unwrap().bank, 3);
    assert_eq!(table.find_start(0xC000), Some(1));
    assert_eq!(table.find_start(0xC001), None);
    assert_eq!(table.iter(), vec![(3, 0x8000..0xC000), (7, 0xC000..0x10000)]);
    table.replace(BankSettings::single(Window { bank: 1, start: 0, end: 0x2000 }));
    assert_eq!(table.iter(), vec![(1, 0..0x2000)]);
    let six = BankSettings::six(
        Window { bank: 0, start: 0, end: 1 },
        Window { bank: 1, start: 1, end: 2 },
        Window { bank: 2, start: 2, end: 3 },
        Window { bank: 3, start: 3, end: 4 },
        Window { bank: 4, start: 4, end: 5 },
        Window { bank: 5, start: 5, end: 6 },
    );
    assert_eq!(six.lookup(5).unwrap().bank, 5);
    assert_eq!(BankSettings::pair(six.windows[0], six.windows[1]).len, 2);
    assert_eq!(BankSettings::quad(six.windows[0], six.windows[1], six.windows[2], six.windows[3]).len, 4);
}

#[test]
fn flat_memory_takes_every_address() {
    let cartridge = Cartridge::new(&image(0, 0, 1, 0)).unwrap();
    let mut cpu = Box::new(Cpu::new(&Config::new("mock.nes"), cartridge, [0; 0x2000], 1789773, true));
    for addr in [0u16, 0x2002, 0x4015, 0x6000, 0x8000, 0xFFFF] {
        cpu.bus.write_u8(addr, (addr >> 8) as u8 ^ 0x5A);
        assert_eq!(cpu.bus.read_u8(addr), (addr >> 8) as u8 ^ 0x5A);
    }
    assert!(matches!(cpu.bus, Mapper::MockBus(_)));
    assert!(cpu.bus.save_data().is_none());
}

#[test]
fn sprite_memory_copy_starts_at_the_sprite_address_and_wraps() {
    let mut cpu = machine(0, 2, 1);
    for i in 0..256u16 {
        cpu.bus.write_u8(0x0300 + i, (i as u8).wrapping_mul(5).wrapping_add(7));
    }
    cpu.bus.write_u8(0x2003, 0x10);
    cpu.regs = [1, 2, 3];
    cpu.sp = 0xF0;
    cpu.pc = 0x8123;
    let flags = cpu.p.to_byte();
    // Page 0x0B is page 3 again: work RAM repeats every 0x800 bytes.
    cpu.dma(0x0B);
    assert_eq!(cpu.bus.ppu().oam.addr, 0x10);
    for i in 0..256usize {
        assert_eq!(
            cpu.bus.ppu().oam.buffer[(0x10 + i) % 256],
            (i as u8).wrapping_mul(5).wrapping_add(7)
        );
        assert_eq!(cpu.bus.read_u8(0x0300 + i as u16), (i as u8).wrapping_mul(5).wrapping_add(7));
    }
    assert_eq!(cpu.regs, [1, 2, 3]);
    assert_eq!((cpu.sp, cpu.pc, cpu.p.to_byte()), (0xF0, 0x8123, flags));
}
