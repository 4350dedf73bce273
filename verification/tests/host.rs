use nes::cartridge::Cartridge;
use nes::controller::{Btn, Controller};
use nes::cpu::Cpu;
use nes::emulator::{Axis, EmulatorCore, PadButton, Signal, DEADZONE};
use nes::sampler::{Sampler, SAMPLERATE};
use nes::util::Config;
use nes::State;

fn plain_image() -> Vec<u8> {
    let mut file = vec![0x4E, 0x45, 0x53, 0x1A, 2, 1, 0, 0];
    file.extend_from_slice(&[0u8; 8]);
    let mut prg = vec![0xEAu8; 0x8000];
    prg[0x7FFC] = 0x34;
    prg[0x7FFD] = 0x92;
    file.extend(prg);
    file.extend(std::iter::repeat(0u8).take(0x2000));
    file
}

fn console() -> Box<EmulatorCore> {
    let cartridge = Cartridge::new(&plain_image()).unwrap();
    Box::new(EmulatorCore::new(&Config::new("game.nes"), cartridge, [0; 0x2000], 1789773))
}

fn held(emu: &EmulatorCore) -> [bool; 8] {
    emu.cpu.bus.bus_ref().controller1.buttons
}

fn only(button: Btn) -> [bool; 8] {
    let mut pad = Controller::new();
    pad.press(button);
    pad.buttons
}

#[test]
fn sampler_fires_on_every_wrap_that_passes_the_clock_rate() {
    assert_eq!(SAMPLERATE, 44100);
    let mut sampler = Sampler::new(1789773);
    let mut samples = 0;
    for _ in 0..1789773 {
        if sampler.cycle() {
            samples += 1;
        }
    }
    // Of the 44100 wraps of one second, three land on zero exactly.
    assert_eq!(samples, 44097);
    assert_eq!(sampler.counter, 0);
}

#[test]
fn sampler_counts_modulo_the_clock_rate() {
    let mut sampler = Sampler::new(100000);
    assert!(!sampler.cycle());
    assert_eq!(sampler.counter, 44100);
    assert!(!sampler.cycle());
    assert_eq!(sampler.counter, 88200);
    assert!(sampler.cycle());
    assert_eq!(sampler.counter, 32300);
    sampler._set_clockrate(50000);
    assert_eq!(sampler.clockrate, 50000);
    assert_eq!(sampler.counter, 0);
    assert!(!sampler.cycle());
    assert!(sampler.cycle());
    assert_eq!(sampler.counter, 38200);
}

#[test]
fn sampler_with_a_clock_equal_to_the_rate_never_fires() {
    let mut sampler = Sampler::new(44100);
    for _ in 0..10 {
        assert!(!sampler.cycle());
        assert_eq!(sampler.counter, 0);
    }
}

#[test]
fn pad_state_is_set_from_a_byte() {
    let mut pad = Controller::new();
    pad.set_state(0b1000_0101);
    assert_eq!(pad.buttons, [true, false, true, false, false, false, false, true]);
    pad.write(1);
    pad.write(0);
    let mut bits = Vec::new();
    for _ in 0..9 {
        bits.push(pad.read());
    }
    assert_eq!(bits, vec![1, 0, 1, 0, 0, 0, 0, 1, 1]);
    pad.set_state(0);
    assert_eq!(pad.buttons, [false; 8]);
}

#[test]
fn quit_signal_asks_for_the_end() {
    let mut emu = console();
    assert!(!emu.request_termination);
    emu.handle_input(Signal::Quit);
    assert!(emu.request_termination);
    assert_eq!(emu.state, State::Running);
}

#[test]
fn pause_signal_toggles_between_running_and_halted() {
    let mut emu = console();
    emu.handle_input(Signal::TogglePause);
    assert_eq!(emu.state, State::Halted);
    emu.handle_input(Signal::TogglePause);
    assert_eq!(emu.state, State::Running);
    emu.handle_input(Signal::StepFrame);
    assert_eq!(emu.state, State::StepFrame);
    emu.handle_input(Signal::TogglePause);
    assert_eq!(emu.state, State::Running);
    emu.handle_input(Signal::SingleStep);
    assert_eq!(emu.state, State::SingleStep);
    emu.handle_input(Signal::StepScanline);
    assert_eq!(emu.state, State::StepScanline);
}

#[test]
fn reset_signal_loads_the_vector() {
    let mut emu = console();
    emu.handle_input(Signal::Reset);
    assert_eq!(emu.cpu.pc, 0x9234);
    assert_eq!(emu.cpu.cyc, 7);
    assert_eq!(emu.cpu.sp, 0xFD);
}

#[test]
fn pad_buttons_reach_the_game_pad() {
    let mut emu = console();
    emu.handle_input(Signal::ButtonDown(PadButton::A));
    assert_eq!(held(&emu), only(Btn::A));
    emu.handle_input(Signal::ButtonDown(PadButton::Back));
    assert!(held(&emu)[2]);
    emu.handle_input(Signal::ButtonUp(PadButton::A));
    assert_eq!(held(&emu), only(Btn::Select));
    emu.handle_input(Signal::ButtonUp(PadButton::Back));
    emu.handle_input(Signal::ButtonDown(PadButton::Other));
    assert_eq!(held(&emu), [false; 8]);
    emu.handle_input(Signal::ButtonDown(PadButton::B));
    emu.handle_input(Signal::ButtonDown(PadButton::Start));
    assert_eq!(held(&emu), [false, true, false, true, false, false, false, false]);
}

#[test]
fn cross_takes_precedence_over_the_stick() {
    let mut emu = console();
    emu.handle_input(Signal::ButtonDown(PadButton::DPadDown));
    assert!(emu.dpad_in_use);
    assert_eq!(held(&emu), only(Btn::Down));
    emu.handle_input(Signal::ButtonDown(PadButton::DPadUp));
    assert_eq!(held(&emu), only(Btn::Up));
    emu.handle_input(Signal::AxisMotion(Axis::LeftX, 32767));
    assert_eq!(held(&emu), only(Btn::Up));
    emu.handle_input(Signal::ButtonUp(PadButton::DPadUp));
    assert!(!emu.dpad_in_use);
    assert_eq!(held(&emu), [false; 8]);
    emu.handle_input(Signal::AxisMotion(Axis::LeftX, 32767));
    assert_eq!(held(&emu), only(Btn::Right));
}

#[test]
fn stick_beyond_the_dead_zone_is_a_direction() {
    assert_eq!(DEADZONE, 5000);
    let mut emu = console();
    emu.handle_input(Signal::AxisMotion(Axis::LeftX, -5001));
    assert_eq!(held(&emu), only(Btn::Left));
    emu.handle_input(Signal::AxisMotion(Axis::LeftX, -5000));
    assert_eq!(held(&emu), [false; 8]);
    emu.handle_input(Signal::AxisMotion(Axis::LeftX, 5000));
    assert_eq!(held(&emu), [false; 8]);
    emu.handle_input(Signal::AxisMotion(Axis::LeftX, 5001));
    assert_eq!(held(&emu), only(Btn::Right));
    emu.handle_input(Signal::AxisMotion(Axis::LeftX, 0));
    emu.handle_input(Signal::AxisMotion(Axis::LeftY, -32768));
    assert_eq!(held(&emu), only(Btn::Up));
    emu.handle_input(Signal::AxisMotion(Axis::LeftY, 20000));
    assert_eq!(held(&emu), only(Btn::Down));
    emu.handle_input(Signal::AxisMotion(Axis::Other, 20000));
    assert_eq!(held(&emu), only(Btn::Down));
}

#[test]
fn fresh_machine_is_valid() {
    let emu = console();
    assert!(emu.cpu.is_valid());
    let copy: Cpu = emu.cpu.clone();
    assert!(copy.is_valid());
}

#[test]
fn out_of_range_state_is_not_valid() {
    let mut emu = console();
    emu.cpu.bus.bus().controller1.idx = 9;
    assert!(!emu.cpu.is_valid());
    emu.cpu.bus.bus().controller1.idx = 8;
    assert!(emu.cpu.is_valid());
    emu.cpu.bus.bus().ppu.beam.dot = 341;
    assert!(!emu.cpu.is_valid());
    emu.cpu.bus.bus().ppu.beam.dot = 340;
    assert!(emu.cpu.is_valid());
    emu.cpu.bus.bus().ppu.regs.v.addr = 0x8000;
    assert!(!emu.cpu.is_valid());
    emu.cpu.bus.bus().ppu.regs.v.addr = 0x7FFF;
    emu.cpu.bus.bus().apu.pulse1.duty = 4;
    assert!(!emu.cpu.is_valid());
    emu.cpu.bus.bus().apu.pulse1.duty = 3;
    emu.cpu.bus.bus().ppu.spr.spr_shift_count[7] = 8;
    assert!(!emu.cpu.is_valid());
    emu.cpu.bus.bus().ppu.spr.spr_shift_count[7] = 7;
    emu.cpu.bus.bus().ppu.oam.sprites[3].1.attrib.palette = 8;
    assert!(!emu.cpu.is_valid());
    emu.cpu.bus.bus().ppu.oam.sprites[3].1.attrib.palette = 7;
    emu.cpu.bus.bus().prg_rom.push(0);
    assert!(!emu.cpu.is_valid());
}
