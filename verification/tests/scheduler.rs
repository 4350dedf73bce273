use nes::cartridge::Cartridge;
use nes::cpu::status::Flag;
use nes::emulator::{Action, EmulatorCore, CYCLES_PER_FRAME};
use nes::error::EmuError;
use nes::util::Config;
use nes::State;

/// A 32 KiB program: interrupts off at the picture unit, then a loop.
/// The interrupt handlers return at once.
fn image(program: &[u8]) -> Vec<u8> {
    let mut file = vec![0x4E, 0x45, 0x53, 0x1A, 2, 1, 0, 0];
    file.extend_from_slice(&[0u8; 8]);
    let mut prg = vec![0xEAu8; 0x8000];
    prg[..program.len()].copy_from_slice(program);
    prg[0x7000] = 0x40;
    prg[0x7FFA] = 0x00;
    prg[0x7FFB] = 0xF0;
    prg[0x7FFC] = 0x00;
    prg[0x7FFD] = 0x80;
    prg[0x7FFE] = 0x00;
    prg[0x7FFF] = 0xF0;
    file.extend(prg);
    file.extend(std::iter::repeat(0u8).take(0x2000));
    file
}

fn machine(program: &[u8]) -> Box<EmulatorCore> {
    let cartridge = Cartridge::new(&image(program)).unwrap();
    let mut emu = Box::new(EmulatorCore::new(&Config::new("game.nes"), cartridge, [0; 0x2000], 1789773));
    emu.cpu.reset();
    emu.cpu.sp = 0xFF;
    emu
}

const QUIET_LOOP: [u8; 8] = [0xA9, 0x00, 0x8D, 0x00, 0x20, 0x4C, 0x05, 0x80];

fn run_frame(emu: &mut EmulatorCore) -> usize {
    let mut last = 0;
    loop {
        assert!(emu.has_room());
        let before = emu.cpu.cyc;
        match emu.update_step().unwrap() {
            Action::Continue => {}
            Action::Flush => {
                last = before;
                break;
            }
            Action::Stop => panic!("the machine halted"),
        }
    }
    last
}

#[test]
fn frame_budget_follows_the_three_frame_pattern() {
    let mut emu = machine(&QUIET_LOOP);
    assert_eq!(emu.cycles_per_frame, CYCLES_PER_FRAME);
    assert_eq!(CYCLES_PER_FRAME, 29780);
    let mut budget = emu.cycles_per_frame;
    for frame in 1..=9usize {
        let spent = run_frame(&mut emu);
        assert!(spent > budget && spent <= budget + 7);
        let bonus = if frame % 3 == 0 { 2 } else { 0 };
        assert_eq!(emu.cycles_per_frame, 29780 + bonus - (spent - budget));
        assert_eq!(emu.cpu.cyc, 0);
        assert_eq!(emu.state, State::Running);
        budget = emu.cycles_per_frame;
    }
}

#[test]
fn non_maskable_interrupt_is_taken_once_per_frame() {
    let mut emu = machine(&[0x4C, 0x00, 0x80]);
    let mut entries = 0;
    for _ in 0..3 * 9930 {
        let before = emu.cpu.pc;
        emu.cpu.cyc = 0;
        assert_eq!(emu.execute(State::Running), Ok(State::Running));
        if emu.cpu.pc == 0xF000 {
            assert_eq!(before, 0x8000);
            entries += 1;
            assert!(emu.cpu.p.get(Flag::InterruptDisable));
        }
    }
    assert_eq!(entries, 3);
    assert_eq!(emu.cpu.bus.ppu().regs.interrupts, 0);
}

#[test]
fn reading_the_status_at_the_start_of_vertical_blank_suppresses_the_interrupt() {
    let mut emu = machine(&[0x4C, 0x00, 0x80]);
    let mut suppressed = false;
    let mut entries = 0;
    for _ in 0..2 * 9930 + 2000 {
        emu.cpu.cyc = 0;
        assert_eq!(emu.cpu.fetch_decode_and_execute(), Ok(()));
        if emu.cpu.bus.nmi_line() && !suppressed {
            assert_eq!(emu.cpu.bus.read_u8(0x2002) & 0x80, 0x80);
            assert!(!emu.cpu.bus.nmi_line());
            assert_eq!(emu.cpu.bus.ppu().regs.interrupts, 0);
            suppressed = true;
        }
        let before = emu.cpu.pc;
        emu.cpu.service();
        if emu.cpu.pc == 0xF000 && before != 0xF000 {
            // The suppressed frame enters no handler, the next frame one.
            assert!(suppressed);
            assert!(emu.cpu.bus.ppu().beam.frame >= 2);
            entries += 1;
        }
    }
    assert!(suppressed);
    assert_eq!(entries, 1);
    assert_eq!(emu.cpu.bus.ppu().regs.interrupts, 0);
}

#[test]
fn copy_into_sprite_memory_follows_the_write_to_0x4014() {
    let mut emu = machine(&[
        0xA9, 0x00, 0x8D, 0x00, 0x20, 0xA9, 0x07, 0x8D, 0x00, 0x03, 0xA9, 0x03, 0x8D, 0x14, 0x40,
        0x4C, 0x0F, 0x80,
    ]);
    for _ in 0..5 {
        assert_eq!(emu.execute(State::Running), Ok(State::Running));
    }
    let before = emu.cpu.cyc;
    assert_eq!(emu.execute(State::Running), Ok(State::Running));
    let spent = emu.cpu.cyc - before;
    assert_eq!(spent, 4 + if (before + 4) % 2 == 0 { 513 } else { 514 });
    assert_eq!(emu.cpu.bus.ppu().oam.sprites()[0], 0x07);
    assert_eq!(emu.cpu.bus.dma_request(), None);
}

#[test]
fn frame_interrupt_of_the_audio_unit_is_taken_when_enabled() {
    let mut emu = machine(&[0xA9, 0x00, 0x8D, 0x00, 0x20, 0x58, 0x4C, 0x06, 0x80]);
    let mut entered = false;
    for _ in 0..11000 {
        emu.cpu.cyc = 0;
        assert_eq!(emu.execute(State::Running), Ok(State::Running));
        if emu.cpu.pc == 0xF000 {
            entered = true;
            break;
        }
    }
    assert!(entered);
    assert!(emu.cpu.p.get(Flag::InterruptDisable));
    let mut masked = machine(&QUIET_LOOP);
    for _ in 0..11000 {
        masked.cpu.cyc = 0;
        assert_eq!(masked.execute(State::Running), Ok(State::Running));
        assert_ne!(masked.cpu.pc, 0xF000);
    }
}

#[test]
fn stepping_states_halt_when_their_step_is_done() {
    let mut emu = machine(&QUIET_LOOP);
    emu.state = State::SingleStep;
    assert_eq!(emu.update_step(), Ok(Action::Continue));
    assert_eq!(emu.state, State::Halted);
    assert_eq!(emu.cpu.pc, 0x8002);
    assert_eq!(emu.update_step(), Ok(Action::Stop));
    assert_eq!(emu.cpu.pc, 0x8002);

    emu.state = State::StepScanline;
    let line = emu.cpu.bus.ppu().beam.scanline;
    let mut steps = 0;
    while emu.state == State::StepScanline {
        assert_eq!(emu.update_step(), Ok(Action::Continue));
        steps += 1;
        assert!(steps < 200);
    }
    assert_eq!(emu.state, State::Halted);
    assert_ne!(emu.cpu.bus.ppu().beam.scanline, line);

    emu.state = State::StepFrame;
    let mut steps = 0;
    loop {
        match emu.update_step().unwrap() {
            Action::Continue => steps += 1,
            Action::Flush => break,
            Action::Stop => panic!("halted before the frame ended"),
        }
        assert!(steps < 20000);
    }
    assert_eq!(emu.state, State::Halted);
    assert_eq!(emu.cpu.cyc, 0);
    assert_eq!(emu.update_step(), Ok(Action::Stop));
}

#[test]
fn faults_end_the_step() {
    let mut emu = machine(&[0x02]);
    assert_eq!(emu.update_step(), Err(EmuError::UnimplementedOpcode(0x02)));
    assert_eq!(emu.execute(State::Running), Ok(State::Running));
    let mut manual = emu.cpu.clone();
    manual.pc = 0x8000;
    assert_eq!(manual.fetch_decode_and_execute(), Err(EmuError::UnimplementedOpcode(0x02)));
}

#[test]
fn budget_adjusts_to_overshoot_and_shortfall() {
    let mut emu = machine(&QUIET_LOOP);
    emu.cpu.cyc = 29785;
    emu.adjust_cycles_per_frame();
    assert_eq!(emu.cycles_per_frame, 29775);
    assert_eq!(emu.frame, 1);
    emu.cpu.cyc = 29775;
    emu.adjust_cycles_per_frame();
    assert_eq!(emu.cycles_per_frame, 29780);
    emu.cpu.cyc = 29780;
    emu.adjust_cycles_per_frame();
    assert_eq!(emu.cycles_per_frame, 29782);
    assert_eq!(emu.frame, 0);
    emu.cpu.cyc = 29772;
    emu.adjust_cycles_per_frame();
    assert_eq!(emu.cycles_per_frame, 29790);
    emu.cpu.cyc = 100_000;
    emu.adjust_cycles_per_frame();
    assert_eq!(emu.cycles_per_frame, 0);
    assert_eq!(emu.cpu.cyc, 0);
}
