use nes::cartridge::{Cartridge, MapperType, Mirroring};
use nes::ppu::address::Address;
use nes::ppu::ctrl::Control;
use nes::ppu::mask::Mask;
use nes::ppu::mmc3::Irq;
use nes::ppu::oam::{Attributes, Oam, Sprite};
use nes::ppu::palette::{PaletteTable, Rgba};
use nes::ppu::pipeline::A12Watch;
use nes::ppu::pipeline_bits::reverse_bits;
use nes::ppu::status::Status;
use nes::ppu::Ppu;

fn cartridge(chr_banks: usize, mirroring: Mirroring) -> Cartridge {
    let mut chr = Vec::new();
    for i in 0..chr_banks * 0x2000 {
        chr.push((i / 0x400) as u8);
    }
    Cartridge { chr_rom: Some(chr), mapper_type: MapperType::Nrom, mirroring, prg_rom: Some(Vec::new()) }
}

fn ppu(chr_banks: usize, mirroring: Mirroring, kind: MapperType) -> Box<Ppu> {
    Box::new(Ppu::new(cartridge(chr_banks, mirroring), kind))
}

fn run_to(ppu: &mut Ppu, scanline: u16, dot: u16) -> u32 {
    let mut ticks = 0;
    while !(ppu.beam.scanline == scanline && ppu.beam.dot == dot) {
        ppu.tick();
        ticks += 1;
        assert!(ticks < 200_000);
    }
    ticks
}

#[test]
fn palette_entries_mirror_in_both_directions() {
    let mut ppu = ppu(1, Mirroring::Horizontal, MapperType::Nrom);
    for k in 0..4u16 {
        ppu.write(0x3F10 + 4 * k, 0x20 + k as u8);
        assert_eq!(ppu.read(0x3F00 + 4 * k), 0x20 + k as u8);
        ppu.write(0x3F00 + 4 * k, 0x30 + k as u8);
        assert_eq!(ppu.read(0x3F10 + 4 * k), 0x30 + k as u8);
    }
    ppu.write(0x3F11, 0x05);
    ppu.write(0x3F01, 0x06);
    assert_eq!(ppu.read(0x3F11), 0x05);
    assert_eq!(ppu.read(0x3F01), 0x06);
    assert_eq!(ppu.read(0x3F31), 0x05);
}

#[test]
fn palette_reads_through_the_data_port() {
    let mut ppu = ppu(1, Mirroring::Horizontal, MapperType::Nrom);
    ppu.write_reg(6, 0x3F);
    ppu.write_reg(6, 0x10);
    for _ in 0..4 {
        ppu.tick();
    }
    ppu.write_reg(7, 0x2A);
    ppu.write_reg(6, 0x3F);
    ppu.write_reg(6, 0x00);
    for _ in 0..4 {
        ppu.tick();
    }
    assert_eq!(ppu.read_reg(7), 0x2A);
}

#[test]
fn greyscale_keeps_two_bits_of_a_palette_read() {
    let mut ppu = ppu(1, Mirroring::Horizontal, MapperType::Nrom);
    ppu.write(0x3F01, 0x3C);
    ppu.write_reg(1, 0x01);
    assert_eq!(ppu.read(0x3F01), 0x30);
}

#[test]
fn data_port_reads_are_buffered_below_the_palette() {
    let mut ppu = ppu(1, Mirroring::Vertical, MapperType::Nrom);
    ppu.write(0x2000, 0x11);
    ppu.write(0x2001, 0x22);
    ppu.write_reg(6, 0x20);
    ppu.write_reg(6, 0x00);
    for _ in 0..4 {
        ppu.tick();
    }
    assert_eq!(ppu.read_reg(7), 0x00);
    assert_eq!(ppu.read_reg(7), 0x11);
    assert_eq!(ppu.read_reg(7), 0x22);
    assert_eq!(ppu.regs.v.address(), 0x2003);
}

#[test]
fn data_port_steps_by_one_or_thirty_two() {
    let mut ppu = ppu(1, Mirroring::Vertical, MapperType::Nrom);
    ppu.write_reg(0, 0x04);
    ppu.write_reg(6, 0x20);
    ppu.write_reg(6, 0x00);
    for _ in 0..4 {
        ppu.tick();
    }
    ppu.write_reg(7, 1);
    assert_eq!(ppu.regs.v.address(), 0x2020);
    ppu.write_reg(0, 0x00);
    ppu.write_reg(7, 2);
    assert_eq!(ppu.regs.v.address(), 0x2021);
    assert_eq!(ppu.read(0x2000), 1);
    assert_eq!(ppu.read(0x2020), 2);
}

#[test]
fn address_register_wraps_into_the_name_tables() {
    let mut addr = Address::new();
    addr.update(0x3FFF);
    addr.increment(false);
    assert_eq!(addr.address(), 0x2000);
    addr.update(0x3FF0);
    addr.increment(true);
    assert_eq!(addr.address(), 0x2010);
    addr.update(0x1234);
    addr.increment(true);
    assert_eq!(addr.address(), 0x1254);
}

#[test]
fn scroll_registers_step_through_tiles_and_rows() {
    let mut addr = Address::new();
    addr.update(0x001E);
    assert_eq!(addr.inc_horiz(), 0x001F);
    addr.update(0x001F);
    assert_eq!(addr.inc_horiz(), 0x0400);
    addr.update(0x041F);
    assert_eq!(addr.inc_horiz(), 0x0000);
    addr.update(0x0000);
    assert_eq!(addr.inc_vert(), 0x1000);
    addr.update(0x7000);
    assert_eq!(addr.inc_vert(), 0x0020);
    addr.update(0x7000 | (29 << 5));
    assert_eq!(addr.inc_vert(), 0x0800);
    addr.update(0x7800 | (29 << 5) | 3);
    assert_eq!(addr.inc_vert(), 0x0003);
    addr.update(0x7000 | (31 << 5));
    assert_eq!(addr.inc_vert(), 0x0000);
}

#[test]
fn scroll_and_address_ports_load_t() {
    let mut addr = Address::new();
    addr.write_scroll(0b0111_1101, false);
    assert_eq!(addr.address(), 0b01111);
    addr.write_scroll(0b0101_1110, true);
    assert_eq!(addr.address(), (0b110 << 12) | (0b01011 << 5) | 0b01111);
    addr.write_addr(0xFF, false);
    assert_eq!(addr.address() >> 8, 0x3F);
    addr.write_addr(0xAB, true);
    assert_eq!(addr.address(), 0x3FAB);

    let mut ppu = ppu(1, Mirroring::Vertical, MapperType::Nrom);
    ppu.write_reg(0, 0b0000_0011);
    assert_eq!(ppu.regs.t.address(), 0x0C00);
    ppu.write_reg(5, 0b1010_1011);
    assert_eq!(ppu.regs.x, 0b011);
    assert!(ppu.regs.w);
    assert_eq!(ppu.regs.t.address(), 0x0C00 | 0b10101);
    ppu.write_reg(5, 0);
    assert!(!ppu.regs.w);
}

#[test]
fn second_address_write_reaches_v_three_dots_later() {
    let mut ppu = ppu(1, Mirroring::Vertical, MapperType::Nrom);
    ppu.write_reg(1, 0);
    ppu.write_reg(6, 0x21);
    ppu.write_reg(6, 0x08);
    assert_eq!(ppu.regs.t.address(), 0x2108);
    assert_eq!(ppu.regs.v.address(), 0);
    ppu.tick();
    ppu.tick();
    ppu.tick();
    assert_eq!(ppu.regs.v.address(), 0);
    ppu.tick();
    assert_eq!(ppu.regs.v.address(), 0x2108);
}

#[test]
fn control_register_decodes_and_encodes() {
    let ctrl = Control::from_byte(0b1011_0110);
    assert!(ctrl.nmi);
    assert!(!ctrl.master_slave);
    assert_eq!(ctrl.size, 128);
    assert_eq!(ctrl.bg_pt_addr, 0x1000);
    assert_eq!(ctrl.spr_pt_addr, 0);
    assert!(ctrl.inc_vert);
    assert_eq!(ctrl.base_nt_addr, 0x2800);
    assert_eq!(ctrl.to_byte(), 0b1001_0110);
    let power_up = Control::new();
    assert!(power_up.nmi);
    assert_eq!(power_up.size, 64);
    assert_eq!(power_up.to_byte(), 0b1010_0000);
}

#[test]
fn mask_and_status_round_trip() {
    for byte in [0u8, 0x1E, 0xE1, 0xFF, 0x5A] {
        assert_eq!(Mask::from_byte(byte).to_byte(), byte);
    }
    assert_eq!(Mask::from_byte(0b1010_0000).emphasis_index(), 0b101);
    assert_eq!(Mask::new().to_byte(), 0b0001_1110);
    assert_eq!(Status::from_byte(0xFF).to_byte(), 0xE0);
    assert_eq!(Status::from_byte(0x40).to_byte(), 0x40);
    assert_eq!(Status::new().to_byte(), 0);
    let attributes = Attributes::from_byte(0b1110_0110);
    assert_eq!(attributes.palette, 6);
    assert!(attributes.priority && attributes.flip_horiz && attributes.flip_vert);
    assert_eq!(attributes.to_byte(), 0b1110_0010);
    assert_eq!(Attributes::new().palette, 0);
}

#[test]
fn vertical_blank_rises_on_dot_one_of_line_241() {
    let mut ppu = ppu(1, Mirroring::Horizontal, MapperType::Nrom);
    run_to(&mut ppu, 241, 1);
    assert!(!ppu.regs.status.vblank);
    assert_eq!(ppu.regs.interrupts, 0);
    ppu.tick();
    assert!(ppu.regs.status.vblank);
    assert!(ppu.regs.nmi_occurred);
    assert_eq!(ppu.regs.interrupts, 1);
    run_to(&mut ppu, 261, 1);
    assert!(ppu.regs.status.vblank);
    ppu.tick();
    assert!(!ppu.regs.status.vblank);
    assert!(!ppu.regs.nmi_occurred);
    run_to(&mut ppu, 241, 2);
    assert_eq!(ppu.regs.interrupts, 2);
}

#[test]
fn no_interrupt_is_requested_while_it_is_disabled() {
    let mut ppu = ppu(1, Mirroring::Horizontal, MapperType::Nrom);
    ppu.write_reg(0, 0x00);
    run_to(&mut ppu, 241, 2);
    assert!(ppu.regs.status.vblank);
    assert!(!ppu.regs.nmi_occurred);
    assert_eq!(ppu.regs.interrupts, 0);
}

#[test]
fn enabling_the_interrupt_during_vertical_blank_requests_it() {
    let mut ppu = ppu(1, Mirroring::Horizontal, MapperType::Nrom);
    run_to(&mut ppu, 241, 2);
    assert_eq!(ppu.regs.interrupts, 1);
    ppu.write_reg(0, 0x80);
    assert_eq!(ppu.regs.interrupts, 1);
    ppu.write_reg(0, 0x00);
    assert_eq!(ppu.regs.interrupts, 1);
    ppu.write_reg(0, 0x80);
    assert_eq!(ppu.regs.interrupts, 2);
    assert!(ppu.regs.nmi_occurred);
}

#[test]
fn enabling_the_interrupt_latches_when_the_blank_began_with_it_disabled() {
    let mut ppu = ppu(1, Mirroring::Horizontal, MapperType::Nrom);
    ppu.write_reg(0, 0x03);
    run_to(&mut ppu, 245, 7);
    assert!(ppu.regs.status.vblank);
    assert!(!ppu.regs.nmi_occurred);
    assert_eq!(ppu.regs.interrupts, 0);
    let v = ppu.regs.v.addr;
    ppu.regs.t.addr = 0x7ABC;
    ppu.write_reg(0, 0x81);
    assert_eq!(ppu.regs.interrupts, 1);
    assert!(ppu.regs.nmi_occurred);
    assert!(ppu.regs.ctrl.nmi);
    assert_eq!(ppu.regs.t.addr, 0x76BC);
    assert_eq!(ppu.regs.v.addr, v);
    assert!(ppu.regs.status.vblank);
}

#[test]
fn enabling_the_interrupt_outside_vertical_blank_latches_nothing() {
    let mut ppu = ppu(1, Mirroring::Horizontal, MapperType::Nrom);
    ppu.write_reg(0, 0x00);
    run_to(&mut ppu, 100, 0);
    ppu.write_reg(0, 0x80);
    assert_eq!(ppu.regs.interrupts, 0);
    ppu.write_reg(0, 0x00);
    run_to(&mut ppu, 250, 0);
    assert_eq!(ppu.read_reg(2) & 0x80, 0x80);
    ppu.write_reg(0, 0x80);
    assert_eq!(ppu.regs.interrupts, 0);
    assert!(!ppu.regs.nmi_occurred);
}

#[test]
fn status_read_right_after_the_flag_rises_takes_the_latch_back() {
    let mut ppu = ppu(1, Mirroring::Horizontal, MapperType::Nrom);
    run_to(&mut ppu, 241, 1);
    ppu.tick();
    assert_eq!(ppu.regs.interrupts, 1);
    assert_eq!(ppu.read_reg(2) & 0x80, 0x80);
    assert_eq!(ppu.regs.interrupts, 0);
    assert!(!ppu.regs.nmi_occurred);
    assert!(!ppu.regs.status.vblank);
    run_to(&mut ppu, 241, 1);
    assert_eq!(ppu.regs.interrupts, 0);
    ppu.tick();
    assert_eq!(ppu.regs.interrupts, 1);
}

#[test]
fn status_read_leaves_requests_of_other_blanks_waiting() {
    let mut ppu = ppu(1, Mirroring::Horizontal, MapperType::Nrom);
    ppu.regs.interrupts = 3;
    ppu.regs.nmi_occurred = false;
    ppu.read_reg(2);
    assert_eq!(ppu.regs.interrupts, 3);
    ppu.regs.nmi_occurred = true;
    ppu.read_reg(2);
    assert_eq!(ppu.regs.interrupts, 2);
    assert!(!ppu.regs.nmi_occurred);
}

#[test]
fn flags_fall_on_dot_one_of_the_pre_render_line_and_stay_down() {
    let mut ppu = ppu(1, Mirroring::Horizontal, MapperType::Nrom);
    run_to(&mut ppu, 241, 2);
    run_to(&mut ppu, 261, 1);
    ppu.regs.status.spr_0_hit = true;
    ppu.regs.status.spr_overflow = true;
    assert!(ppu.regs.status.vblank);
    ppu.tick();
    assert!(!ppu.regs.status.vblank);
    assert!(!ppu.regs.status.spr_0_hit);
    assert!(!ppu.regs.status.spr_overflow);
    assert_eq!((ppu.beam.scanline, ppu.beam.dot), (261, 2));
}

#[test]
fn pre_render_line_evaluates_no_sprites_and_composes_no_pixel() {
    let mut ppu = ppu(1, Mirroring::Horizontal, MapperType::Nrom);
    ppu.write_reg(3, 0);
    for _ in 0..64 {
        ppu.write_reg(4, 255);
        ppu.write_reg(4, 0);
        ppu.write_reg(4, 0);
        ppu.write_reg(4, 0);
    }
    run_to(&mut ppu, 261, 0);
    assert!(!ppu.regs.status.spr_overflow);
    let picture = ppu.fb;
    run_to(&mut ppu, 261, 339);
    assert!(!ppu.regs.status.spr_overflow);
    assert!(!ppu.regs.status.spr_0_hit);
    assert_eq!(ppu.oam.count, 0);
    assert_eq!(ppu.beam.sx, 0);
    assert!(ppu.fb == picture);
}

#[test]
fn reading_the_status_clears_vertical_blank_and_the_toggle() {
    let mut ppu = ppu(1, Mirroring::Horizontal, MapperType::Nrom);
    run_to(&mut ppu, 241, 2);
    ppu.write_reg(6, 0x12);
    assert!(ppu.regs.w);
    ppu.write_reg(3, 0b0001_0101);
    // Sixty-four sprites at line 0 have crowded the first lines.
    assert!(ppu.regs.status.spr_overflow);
    let status = ppu.read_reg(2);
    assert_eq!(status, 0b1011_0101);
    assert!(!ppu.regs.w);
    assert!(!ppu.regs.status.vblank);
    assert!(!ppu.regs.nmi_occurred);
    assert_eq!(ppu.read_reg(2) & 0x80, 0);
    assert_eq!(ppu.read_reg(0), ppu.regs.bus);
}

#[test]
fn a_frame_has_341_dots_on_262_lines_and_odd_frames_skip_one() {
    let mut ppu = ppu(1, Mirroring::Horizontal, MapperType::Nrom);
    ppu.tick();
    let first = 1 + run_to(&mut ppu, 261, 0);
    assert_eq!(first, 341 * 262);
    ppu.tick();
    let second = 1 + run_to(&mut ppu, 261, 0);
    assert_eq!(second, 341 * 262 - 1);
    ppu.tick();
    let third = 1 + run_to(&mut ppu, 261, 0);
    assert_eq!(third, 341 * 262);
    ppu.write_reg(1, 0x00);
    ppu.tick();
    assert_eq!(1 + run_to(&mut ppu, 261, 0), 341 * 262);
    ppu.tick();
    assert_eq!(1 + run_to(&mut ppu, 261, 0), 341 * 262);
    assert_eq!(ppu.beam.frame, 6);
}

#[test]
fn beam_stays_in_bounds() {
    let mut ppu = ppu(1, Mirroring::Horizontal, MapperType::Nrom);
    for _ in 0..200_000 {
        ppu.tick();
        assert!(ppu.beam.dot <= 340);
        assert!(ppu.beam.scanline <= 261);
    }
}

#[test]
fn name_tables_fold_by_arrangement() {
    let mut v = ppu(1, Mirroring::Vertical, MapperType::Nrom);
    v.write(0x2005, 1);
    v.write(0x2405, 2);
    assert_eq!(v.read(0x2805), 1);
    assert_eq!(v.read(0x2C05), 2);
    assert_eq!(v.read(0x3005), 1);
    let mut h = ppu(1, Mirroring::Horizontal, MapperType::Nrom);
    h.write(0x2005, 1);
    h.write(0x2805, 2);
    assert_eq!(h.read(0x2405), 1);
    assert_eq!(h.read(0x2C05), 2);
    let mut lower = ppu(1, Mirroring::OneScreenLowerBank, MapperType::Nrom);
    lower.write(0x2C05, 3);
    assert_eq!(lower.read(0x2005), 3);
    assert_eq!(lower.mem.vram[5], 3);
    let mut upper = ppu(1, Mirroring::OneScreenUpperBank, MapperType::Nrom);
    upper.write(0x2005, 4);
    assert_eq!(upper.read(0x2805), 4);
    assert_eq!(upper.mem.vram[0x405], 4);
    let mut single = ppu(1, Mirroring::SingleScreen, MapperType::Axrom);
    single.write(0x2405, 5);
    assert_eq!(single.mem.vram[5], 5);
    single.mem.mmc7_vram_page = 1;
    single.write(0x2405, 6);
    assert_eq!(single.mem.vram[0x405], 6);
    assert_eq!(single.read(0x2005), 6);
}

#[test]
fn four_screen_reaches_past_video_memory() {
    let mut four = ppu(1, Mirroring::FourScreen, MapperType::Nrom);
    four.write(0x2405, 7);
    assert_eq!(four.mem.vram[0x405], 7);
    assert!(four.mem.fault.is_none());
    assert_eq!(four.read(0x2805), 0);
    assert_eq!(four.mem.fault, Some(0x2805));
    four.write(0x2C00, 1);
    assert_eq!(four.mem.fault, Some(0x2805));
}

#[test]
fn character_rom_is_read_only_and_character_ram_is_not() {
    let mut rom = ppu(1, Mirroring::Horizontal, MapperType::Nrom);
    assert_eq!(rom.read(0x0400), 1);
    assert_eq!(rom.read(0x1C00), 7);
    rom.write(0x0400, 0x55);
    assert_eq!(rom.read(0x0400), 1);
    assert!(!rom.mem.ram);
    let mut ram = ppu(0, Mirroring::Horizontal, MapperType::Nrom);
    assert!(ram.mem.ram);
    assert_eq!(ram.read(0x0400), 0);
    ram.write(0x0400, 0x55);
    assert_eq!(ram.read(0x0400), 0x55);
    assert_eq!(ram.read(0x4400), 0x55);
}

#[test]
fn character_bank_past_the_rom_is_a_fault() {
    let mut ppu = ppu(2, Mirroring::Horizontal, MapperType::Cnrom);
    ppu.mem.bank_settings.set_bank(1, 0..0x2000);
    assert_eq!(ppu.read(0x0000), 8);
    assert!(ppu.mem.fault.is_none());
    ppu.mem.bank_settings.set_bank(2, 0..0x2000);
    assert_eq!(ppu.read(0x0010), 0);
    assert_eq!(ppu.mem.fault, Some(0x0010));
}

#[test]
fn scanline_counter_banks_are_one_kib() {
    let mut ppu = ppu(4, Mirroring::Horizontal, MapperType::MMC3);
    let mut half = ppu.mem.mmc3.unwrap();
    half.banks = [4, 6, 9, 10, 11, 31];
    ppu.mem.mmc3 = Some(half);
    assert_eq!(ppu.read(0x0000), 4);
    assert_eq!(ppu.read(0x0400), 5);
    assert_eq!(ppu.read(0x0800), 6);
    assert_eq!(ppu.read(0x0C00), 7);
    assert_eq!(ppu.read(0x1000), 9);
    assert_eq!(ppu.read(0x1C00), 31);
}

#[test]
fn sprite_memory_port_steps_on_writes() {
    let mut ppu = ppu(1, Mirroring::Horizontal, MapperType::Nrom);
    ppu.write_reg(3, 0xFE);
    ppu.write_reg(4, 1);
    ppu.write_reg(4, 2);
    ppu.write_reg(4, 3);
    assert_eq!(ppu.oam.addr(), 1);
    assert_eq!(ppu.oam.sprites()[0xFE], 1);
    assert_eq!(ppu.oam.sprites()[0xFF], 2);
    assert_eq!(ppu.oam.sprites()[0x00], 3);
    ppu.write_reg(3, 0xFE);
    ppu.write_reg(1, 0x00);
    assert_eq!(ppu.read_reg(4), 1);
    assert_eq!(ppu.oam.addr(), 0xFE);
    let mut oam = Oam::new();
    oam.set_addr(5);
    oam.write(9);
    oam.set_addr(5);
    assert_eq!(oam.read(true), 9);
    assert_eq!(oam.addr(), 6);
}

#[test]
fn sprite_evaluation_takes_the_first_eight_and_flags_the_ninth() {
    let mut oam = Oam::new();
    for i in 0..64usize {
        oam.set_addr((4 * i) as u8);
        oam.write(0xF0);
        oam.write(i as u8);
        oam.write(0);
        oam.write(i as u8);
    }
    for i in [3usize, 5, 8, 13, 21, 22, 40, 41, 63] {
        oam.set_addr((4 * i) as u8);
        oam.write(20);
    }
    oam.calculate_sprites_on_scanline(21, 64);
    assert_eq!(oam.count, 8);
    assert!(oam.overflow);
    let listed: Vec<usize> = oam.sprites[..8].iter().map(|s| s.0).collect();
    assert_eq!(listed, vec![12, 20, 32, 52, 84, 88, 160, 164]);
    assert_eq!(oam.sprites[2].1.tile_idx, 8);
    assert_eq!(oam.sprites[2].1.x, 8);
    assert_eq!(oam.sprites[2].2, 0);
    oam.calculate_sprites_on_scanline(28, 64);
    assert_eq!(oam.count, 8);
    assert_eq!(oam.sprites[0].2, 7);
    oam.calculate_sprites_on_scanline(29, 64);
    assert_eq!(oam.count, 0);
    assert!(!oam.overflow);
    oam.calculate_sprites_on_scanline(36, 128);
    assert_eq!(oam.count, 8);
    assert_eq!(oam.sprites[0].2, 15);
    oam.calculate_sprites_on_scanline(20, 64);
    assert_eq!(oam.count, 0);
    oam.set_addr(12);
    oam.write(0xF0);
    oam.calculate_sprites_on_scanline(21, 64);
    assert_eq!(oam.count, 8);
    assert!(!oam.overflow);
    let sprite = Sprite::from_bytes(&[1, 2, 0x43, 4]);
    assert_eq!((sprite.y, sprite.tile_idx, sprite.x), (1, 2, 4));
    assert_eq!(sprite.attrib.palette, 7);
    assert!(sprite.attrib.flip_horiz);
}

#[test]
fn scanline_counter_interrupts_every_reload_plus_one_clocks() {
    for reload in [0u8, 1, 3, 7, 255] {
        let mut irq = Irq::new();
        irq.reload = reload;
        irq.enabled = true;
        for round in 0..3 {
            for clock in 0..=reload as u32 {
                assert!(!irq.occurred, "reload {reload} round {round} clock {clock}");
                irq.clock();
            }
            assert!(irq.occurred);
            assert_eq!(irq.counter, 0);
            irq.occurred = false;
        }
    }
    let mut irq = Irq::new();
    irq.reload = 2;
    for _ in 0..20 {
        irq.clock();
    }
    assert!(!irq.occurred);
}

#[test]
fn address_line_rise_counts_after_nine_quiet_dots() {
    let mut watch = A12Watch::new();
    watch.watch(true, true);
    assert!(!watch.a12_rising);
    watch.dot();
    watch.watch(false, true);
    for _ in 0..8 {
        watch.dot();
    }
    watch.watch(true, true);
    assert!(!watch.a12_rising);
    watch.dot();
    watch.watch(false, true);
    for _ in 0..9 {
        assert!(!watch.dot());
    }
    watch.watch(true, true);
    assert!(watch.a12_rising);
    assert!(watch.dot());
    assert!(!watch.a12_rising);
    let mut idle = A12Watch::new();
    idle.a12_filter = 0;
    idle.watch(true, false);
    assert!(!idle.a12_rising);
}

#[test]
fn colours_come_from_the_base_table() {
    let mut table = PaletteTable::new();
    let c = table.color(0x21);
    assert_eq!((c.0, c.1, c.2, c.3), (76, 154, 236, 255));
    assert_eq!(c.to_u32(), 0xFFEC_9A4C);
    assert_eq!(c.to_bytes(), [255, 236, 154, 76]);
    table.select_palette(7);
    let d = table.color(0x21);
    assert_eq!((d.0, d.1, d.2, d.3), (76, 154, 236, 255));
    let black = table.color(0x0F);
    assert_eq!((black.0, black.1, black.2), (0, 0, 0));
    assert_eq!(Rgba(1, 2, 3, 4).to_u32(), 0x0403_0201);
}

#[test]
fn backdrop_fills_the_lines_8_to_231() {
    let mut ppu = ppu(1, Mirroring::Horizontal, MapperType::Nrom);
    ppu.write(0x3F00, 0x21);
    ppu.tick();
    run_to(&mut ppu, 240, 0);
    for y in 0..240usize {
        for x in [0usize, 1, 7, 8, 100, 255] {
            let expected = if (8..=231).contains(&y) { 0xFFEC_9A4C } else { 0 };
            assert_eq!(ppu.fb[x + 256 * y], expected, "x {x} y {y}");
        }
    }
}

#[test]
fn background_tile_is_drawn_with_its_attribute_palette() {
    let mut ppu = ppu(0, Mirroring::Horizontal, MapperType::Nrom);
    for row in 0..8u16 {
        ppu.write(0x0010 + row, 0xFF);
        ppu.write(0x0018 + row, 0x00);
    }
    for i in 0..0x3C0u16 {
        ppu.write(0x2000 + i, 1);
    }
    for i in 0..0x40u16 {
        ppu.write(0x23C0 + i, 0b1010_1010);
    }
    ppu.write(0x3F00, 0x0F);
    ppu.write(0x3F09, 0x21);
    ppu.write_reg(1, 0b0000_1010);
    ppu.tick();
    run_to(&mut ppu, 261, 0);
    ppu.tick();
    run_to(&mut ppu, 240, 0);
    for y in [8usize, 50, 231] {
        for x in [0usize, 17, 128, 255] {
            assert_eq!(ppu.fb[x + 256 * y], 0xFFEC_9A4C, "x {x} y {y}");
        }
    }
    assert!(!ppu.regs.status.spr_0_hit);
}

#[test]
fn sprite_zero_hit_is_flagged_where_sprite_and_background_overlap() {
    let mut ppu = ppu(0, Mirroring::Horizontal, MapperType::Nrom);
    for row in 0..8u16 {
        ppu.write(0x0010 + row, 0xFF);
    }
    for i in 0..0x3C0u16 {
        ppu.write(0x2000 + i, 1);
    }
    ppu.write_reg(3, 0);
    for byte in [40u8, 1, 0, 100] {
        ppu.write_reg(4, byte);
    }
    for _ in 1..64 {
        for byte in [0xF0u8, 0, 0, 0] {
            ppu.write_reg(4, byte);
        }
    }
    ppu.write(0x3F01, 0x21);
    ppu.write(0x3F11, 0x16);
    ppu.write_reg(1, 0b0001_1110);
    ppu.tick();
    run_to(&mut ppu, 261, 0);
    ppu.tick();
    run_to(&mut ppu, 41, 0);
    assert!(!ppu.regs.status.spr_0_hit);
    run_to(&mut ppu, 42, 0);
    assert!(ppu.regs.status.spr_0_hit);
    run_to(&mut ppu, 261, 2);
    assert!(!ppu.regs.status.spr_0_hit);
}

#[test]
fn sprite_overflow_is_flagged_on_a_crowded_line() {
    let mut ppu = ppu(0, Mirroring::Horizontal, MapperType::Nrom);
    ppu.write_reg(3, 0);
    for i in 0..64u8 {
        let y = if i < 9 { 60 } else { 0xF0 };
        for byte in [y, 0, 0, i * 8] {
            ppu.write_reg(4, byte);
        }
    }
    ppu.tick();
    run_to(&mut ppu, 60, 64);
    assert!(!ppu.regs.status.spr_overflow);
    run_to(&mut ppu, 60, 70);
    assert!(ppu.regs.status.spr_overflow);
    assert_eq!(ppu.oam.count, 8);
}

#[test]
fn mirrored_pattern_bytes() {
    assert_eq!(reverse_bits(0b1000_0000), 0b0000_0001);
    assert_eq!(reverse_bits(0b1101_0010), 0b0100_1011);
    assert_eq!(reverse_bits(0xFF), 0xFF);
    assert_eq!(reverse_bits(0), 0);
}

#[test]
fn power_up_state() {
    let ppu = ppu(1, Mirroring::Vertical, MapperType::MMC3);
    assert_eq!((ppu.beam.scanline, ppu.beam.dot, ppu.beam.frame), (261, 0, 1));
    assert!(ppu.mem.mmc3.is_some());
    assert_eq!(ppu.mem.mirroring, Mirroring::Vertical);
    assert_eq!(ppu.a12.a12_filter, 9);
    assert!(ppu.regs.ctrl.nmi);
    assert!(ppu.mem.fault.is_none());
    let mut other = ppu;
    other.set_mirroring_mode(Mirroring::Horizontal);
    assert_eq!(other.mem.mirroring, Mirroring::Horizontal);
}
