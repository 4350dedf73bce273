use nes::apu::dmc::Dmc;
use nes::apu::envelope::Envelope;
use nes::apu::noise::lfsr::Lfsr;
use nes::apu::noise::Noise;
use nes::apu::pulse::sweep::{Mode, Sweep};
use nes::apu::pulse::Pulse;
use nes::apu::triangle::Triangle;
use nes::apu::{Apu, LENGTHS};

#[test]
fn envelope_decays_from_fifteen_at_the_divider_rate() {
    let mut env = Envelope::new();
    env.set_period(2);
    env.start = true;
    env.tick();
    assert_eq!(env.volume(), 15);
    env.tick();
    env.tick();
    assert_eq!(env.volume(), 15);
    env.tick();
    assert_eq!(env.volume(), 14);
    for _ in 0..3 * 14 {
        env.tick();
    }
    assert_eq!(env.volume(), 0);
    for _ in 0..10 {
        env.tick();
    }
    assert_eq!(env.volume(), 0);
}

#[test]
fn looping_envelope_wraps_to_fifteen() {
    let mut env = Envelope::new();
    env.set_period(0);
    env.loop_flag = true;
    env.start = true;
    env.tick();
    for expected in (0..15u8).rev() {
        env.tick();
        assert_eq!(env.volume(), expected);
    }
    env.tick();
    assert_eq!(env.volume(), 15);
}

#[test]
fn constant_envelope_plays_its_period() {
    let mut env = Envelope::new();
    env.set_period(9);
    env.constant = true;
    assert_eq!(env.volume(), 9);
    env.tick();
    assert_eq!(env.volume(), 9);
}

#[test]
fn sweep_target_adds_or_subtracts_the_shifted_period() {
    let mut sweep = Sweep::new(Mode::OnesComplement);
    sweep.shift = 1;
    sweep.calculate_target_period(0x100);
    assert_eq!(sweep.target_period, 0x180);
    sweep.negate = true;
    sweep.calculate_target_period(0x100);
    assert_eq!(sweep.target_period, 0x7F);
    let mut sweep = Sweep::new(Mode::TwosComplement);
    sweep.shift = 1;
    sweep.negate = true;
    sweep.calculate_target_period(0x100);
    assert_eq!(sweep.target_period, 0x80);
    sweep.shift = 3;
    sweep.negate = false;
    sweep.tick(0x7F8);
    assert_eq!(sweep.target_period, 0x7F8 + 0xFF);
}

#[test]
fn sweep_mutes_short_periods_and_high_targets() {
    let mut sweep = Sweep::new(Mode::TwosComplement);
    sweep.shift = 1;
    sweep.tick(7);
    assert!(sweep.muted(7));
    sweep.tick(8);
    assert!(!sweep.muted(8));
    sweep.tick(0x600);
    assert_eq!(sweep.target_period, 0x900);
    assert!(sweep.muted(0x600));
    sweep.tick(0x555);
    assert_eq!(sweep.target_period, 0x7FF);
    assert!(!sweep.muted(0x555));
    sweep.tick(0x556);
    assert!(sweep.muted(0x556));
    sweep.negate = true;
    sweep.target_period = 0x900;
    assert!(!sweep.muted(0x600));
}

#[test]
fn sweep_updates_the_period_when_its_divider_runs_out() {
    let mut sweep = Sweep::new(Mode::TwosComplement);
    sweep.enabled = true;
    sweep.shift = 1;
    sweep.set_period(2);
    sweep.reload_flag = true;
    sweep.tick(0x100);
    assert_eq!(sweep.tock(0x100), 0x180);
    sweep.tick(0x180);
    assert_eq!(sweep.tock(0x180), 0x180);
    assert_eq!(sweep.tock(0x180), 0x240);
    sweep.enabled = false;
    sweep.tick(0x240);
    assert_eq!(sweep.tock(0x240), 0x240);
    assert_eq!(sweep.tock(0x240), 0x240);
}

#[test]
fn shift_register_steps_from_its_seed() {
    let mut lfsr = Lfsr::new();
    assert_eq!(lfsr.data, 1);
    assert!(lfsr.output());
    lfsr.tick(false);
    assert_eq!(lfsr.data, 0x4000);
    assert!(!lfsr.output());
    lfsr.tick(false);
    assert_eq!(lfsr.data, 0x2000);
    let mut lfsr = Lfsr::new();
    lfsr.tick(true);
    assert_eq!(lfsr.data, 0x4000);
    for _ in 0..8 {
        lfsr.tick(true);
    }
    assert_eq!(lfsr.data, 0x0040);
    lfsr.tick(true);
    assert_eq!(lfsr.data, 0x4020);
}

#[test]
fn long_mode_has_period_32767() {
    let mut lfsr = Lfsr::new();
    let mut steps = 0u32;
    loop {
        lfsr.tick(false);
        steps += 1;
        if lfsr.data == 1 {
            break;
        }
        assert!(steps < 40000);
    }
    assert_eq!(steps, 32767);
}

#[test]
fn long_mode_has_period_32767_from_any_content() {
    for seed in [2u16, 0x4000, 0x1234, 0x7FFF, 0x5555] {
        let mut lfsr = Lfsr::new();
        lfsr.data = seed;
        let mut steps = 0u32;
        loop {
            lfsr.tick(false);
            steps += 1;
            if lfsr.data == seed {
                break;
            }
            assert!(steps < 40000);
        }
        assert_eq!(steps, 32767);
    }
}

#[test]
fn short_mode_period_divides_93() {
    for seed in [1u16, 2, 0x4000, 0x1234, 0x7FFF, 0x5555] {
        let mut lfsr = Lfsr::new();
        lfsr.data = seed;
        let mut steps = 0u32;
        loop {
            lfsr.tick(true);
            steps += 1;
            if lfsr.data == seed {
                break;
            }
            assert!(steps < 100);
        }
        assert_eq!(93 % steps, 0);
    }
}

#[test]
fn pulse_loads_its_length_from_the_table() {
    let mut pulse = Pulse::new(Mode::OnesComplement, 1789773);
    pulse.write(3, 0b0000_1000);
    assert_eq!(pulse.length, 0);
    pulse.enable(true);
    pulse.write(3, 0b0000_1000);
    assert_eq!(pulse.length, 254);
    pulse.write(3, 0b1111_1000);
    assert_eq!(pulse.length, 30);
    assert_eq!(LENGTHS[0], 10);
    pulse.dec_len();
    assert_eq!(pulse.length, 29);
    pulse.write(0, 0b0010_0000);
    pulse.dec_len();
    assert_eq!(pulse.length, 29);
    pulse.enable(false);
    assert_eq!(pulse.length, 0);
    pulse.dec_len();
    assert_eq!(pulse.length, 0);
}

#[test]
fn pulse_registers_set_timer_duty_and_sweep() {
    let mut pulse = Pulse::new(Mode::TwosComplement, 1789773);
    pulse.write(2, 0xAB);
    pulse.write(3, 0b0000_0101);
    assert_eq!(pulse.reload, 0x5AB);
    pulse.write(2, 0x12);
    assert_eq!(pulse.reload, 0x512);
    pulse.write(0, 0b1011_0110);
    assert_eq!(pulse.duty, 2);
    assert!(pulse.halt);
    assert!(pulse.envelope.constant);
    assert_eq!(pulse.envelope.volume(), 6);
    pulse.write(1, 0b1011_1010);
    assert!(pulse.sweep.enabled);
    assert!(pulse.sweep.negate);
    assert_eq!(pulse.sweep.shift, 2);
    assert_eq!(pulse.sweep.reload, 4);
    assert!(pulse.sweep.reload_flag);
}

#[test]
fn pulse_plays_its_duty_pattern() {
    let mut pulse = Pulse::new(Mode::TwosComplement, 1789773);
    pulse.enable(true);
    pulse.write(0, 0b0111_1111);
    pulse.write(2, 0x10);
    pulse.write(3, 0b0000_1000);
    let mut pattern = Vec::new();
    for _ in 0..8 {
        pattern.push(pulse.output());
        pulse.timer = 0;
        pulse.tick();
    }
    assert_eq!(pattern, vec![0, 15, 15, 0, 0, 0, 0, 0]);
    pulse.write(2, 0x07);
    assert_eq!(pulse.output(), 0);
}

#[test]
fn triangle_walks_its_ramp() {
    let mut triangle = Triangle::new(1789773);
    triangle.enable(true);
    triangle.write(0, 0x7F);
    triangle.write(2, 0x02);
    triangle.write(3, 0b0000_1000);
    assert_eq!(triangle.length, 254);
    let mut seen = Vec::new();
    for _ in 0..32 {
        seen.push(triangle.output());
        triangle.timer = 0;
        triangle.tick();
    }
    let mut expected: Vec<u8> = (0..16u8).rev().collect();
    expected.extend(0..16u8);
    assert_eq!(seen, expected);
    assert_eq!(triangle.output(), 15);
    triangle.write(2, 0x01);
    assert_eq!(triangle.output(), 0);
}

#[test]
fn triangle_stands_still_without_linear_counter() {
    let mut triangle = Triangle::new(1789773);
    triangle.enable(true);
    triangle.write(0, 0x00);
    triangle.write(2, 0x10);
    triangle.write(3, 0b0000_1000);
    for _ in 0..100 {
        triangle.tick();
    }
    assert_eq!(triangle.pos, 0);
    triangle.write(0, 0x03);
    triangle.dec_lin();
    assert_eq!(triangle.linear_counter, 3);
    triangle.dec_lin();
    assert_eq!(triangle.linear_counter, 2);
}

#[test]
fn noise_takes_its_period_from_the_table() {
    let mut noise = Noise::new();
    noise.write(2, 0x8F);
    assert!(noise.mode);
    assert_eq!(noise.reload, 4068);
    noise.write(2, 0x00);
    assert!(!noise.mode);
    assert_eq!(noise.reload, 4);
    noise.write(2, 0x08);
    assert_eq!(noise.reload, 202);
    noise.enable(true);
    noise.write(3, 0b0001_0000);
    assert_eq!(noise.length, 20);
    noise.write(0, 0b0001_0101);
    assert_eq!(noise.output(), 0);
    noise.tick();
    assert_eq!(noise.lfsr.data, 0x4000);
    assert_eq!(noise.output(), 5);
}

#[test]
fn sample_channel_registers() {
    let mut dmc = Dmc::new();
    dmc.write(0, 0b1100_1111);
    assert!(dmc.irq_enabled);
    assert!(dmc.loop_flag);
    assert_eq!(dmc.timer_reload, 27);
    dmc.write(0, 0x00);
    assert_eq!(dmc.timer_reload, 214);
    dmc.write(1, 0xFF);
    assert_eq!(dmc.output(), 127);
    dmc.write(2, 0x01);
    assert_eq!(dmc.addr, 0xC040);
    dmc.write(3, 0x01);
    assert_eq!(dmc.length, 17);
    dmc.write(2, 0xFF);
    assert_eq!(dmc.addr, 0xFFC0);
    dmc.write(3, 0xFF);
    assert_eq!(dmc.length, 4081);
}

#[test]
fn looping_sample_restarts_from_its_first_address() {
    let mut dmc = Dmc::new();
    dmc.write(0, 0b0100_0000);
    dmc.write(2, 0x02);
    dmc.write(3, 0x00);
    assert_eq!(dmc.length, 1);
    assert!(dmc.buffer_should_be_filled());
    dmc.addr = 0xC0FF;
    dmc.fill_buffer(0xAA);
    assert_eq!(dmc.addr, 0xC080);
    assert_eq!(dmc.length, 1);
    assert!(!dmc.irq);
    assert!(!dmc.buffer_should_be_filled());
}

#[test]
fn sample_interrupt_latches_once_at_the_end() {
    let mut dmc = Dmc::new();
    dmc.write(0, 0b1000_0000);
    dmc.write(2, 0x00);
    dmc.write(3, 0x01);
    for i in 0..16 {
        assert!(!dmc.irq);
        dmc.sample_buf = None;
        dmc.fill_buffer(i);
    }
    assert_eq!(dmc.length, 1);
    dmc.sample_buf = None;
    dmc.fill_buffer(0);
    assert!(dmc.irq);
    assert_eq!(dmc.length, 0);
    dmc.sample_buf = None;
    assert!(!dmc.buffer_should_be_filled());
    dmc.enable(true);
    for _ in 0..1000 {
        dmc.tick();
        assert!(dmc.irq);
        assert!(!dmc.buffer_should_be_filled());
    }
}

#[test]
fn sample_address_wraps_to_0x8000() {
    let mut dmc = Dmc::new();
    dmc.write(3, 0x01);
    dmc.addr = 0xFFFF;
    dmc.fill_buffer(1);
    assert_eq!(dmc.addr, 0x8000);
    assert_eq!(dmc.length, 16);
}

#[test]
fn sample_bits_move_the_level_by_two() {
    let mut dmc = Dmc::new();
    dmc.write(1, 64);
    dmc.enable(true);
    dmc.write(3, 0x01);
    dmc.fill_buffer(0b0000_0111);
    let mut levels = Vec::new();
    for _ in 0..8 {
        dmc.tick();
        levels.push(dmc.output());
    }
    assert_eq!(levels, vec![66, 68, 70, 68, 66, 64, 62, 60]);
    assert!(dmc.sample_buf.is_none());
    dmc.write(1, 126);
    dmc.fill_buffer(0xFF);
    dmc.tick();
    assert_eq!(dmc.output(), 126);
    dmc.write(1, 1);
    dmc.sample_buf = Some(0);
    dmc.tick();
    assert_eq!(dmc.output(), 0);
}

#[test]
fn frame_interrupt_rises_at_cycle_29828_of_the_four_step_sequence() {
    let mut apu = Apu::new(1789773);
    for _ in 0..29828 {
        apu.tick();
    }
    assert!(!apu.interrupt);
    apu.tick();
    assert!(apu.interrupt);
    assert_eq!(apu.read(0x4015) & 0x40, 0x40);
    assert!(!apu.interrupt);
    assert_eq!(apu.read(0x4015) & 0x40, 0);
    apu.tick();
    assert!(apu.interrupt);
    apu.tick();
    assert_eq!(apu.cycles, 1);
    assert_eq!(apu.frame_counter, 0);
}

#[test]
fn five_step_sequence_raises_no_interrupt() {
    let mut apu = Apu::new(1789773);
    apu.write(0x4017, 0x80);
    for _ in 0..80000 {
        apu.tick();
        assert!(!apu.interrupt);
    }
}

#[test]
fn inhibited_frame_interrupt_stays_low() {
    let mut apu = Apu::new(1789773);
    apu.write(0x4017, 0x40);
    for _ in 0..60000 {
        apu.tick();
        assert!(!apu.interrupt);
    }
}

#[test]
fn sequencer_clocks_lengths_on_half_frames() {
    let mut apu = Apu::new(1789773);
    apu.write(0x4015, 0x01);
    apu.write(0x4003, 0b0000_1000);
    assert_eq!(apu.pulse1.length, 254);
    for _ in 0..7458 {
        apu.tick();
    }
    assert_eq!(apu.pulse1.length, 254);
    for _ in 0..(14914 - 7458) {
        apu.tick();
    }
    assert_eq!(apu.pulse1.length, 253);
    for _ in 0..(29830 - 14914) {
        apu.tick();
    }
    assert_eq!(apu.pulse1.length, 252);
}

#[test]
fn five_step_write_clocks_a_half_frame_at_once() {
    let mut apu = Apu::new(1789773);
    apu.write(0x4015, 0x01);
    apu.write(0x4003, 0b0000_1000);
    apu.write(0x4017, 0x80);
    assert_eq!(apu.pulse1.length, 253);
    assert!(apu.reset_requested);
    assert_eq!(apu.request_cycles, 3);
    apu.tick();
    apu.write(0x4017, 0x80);
    assert_eq!(apu.request_cycles, 4);
    for _ in 0..5 {
        apu.tick();
    }
    assert!(!apu.reset_requested);
    assert_eq!(apu.cycles, 1);
}

#[test]
fn status_reports_channel_lengths_and_interrupts() {
    let mut apu = Apu::new(1789773);
    assert_eq!(apu.read(0x4015), 0);
    apu.write(0x4015, 0x0F);
    apu.write(0x4003, 0x08);
    apu.write(0x400B, 0x08);
    assert_eq!(apu.read(0x4015), 0b0000_0101);
    apu.write(0x4007, 0x08);
    apu.write(0x400F, 0x08);
    assert_eq!(apu.read(0x4015), 0b0000_1111);
    apu.write(0x4013, 0x01);
    apu.dmc.irq = true;
    assert_eq!(apu.read(0x4015), 0b1001_1111);
    apu.write(0x4015, 0x00);
    assert_eq!(apu.read(0x4015), 0);
    assert!(!apu.dmc.irq);
    assert_eq!(apu.read(0x4000), 0);
}

#[test]
fn channel_levels_are_reported_in_order() {
    let mut apu = Apu::new(1789773);
    assert_eq!(apu.output(), [0, 0, 0, 0, 0]);
    apu.write(0x4011, 0x55);
    apu.write(0x400A, 0x02);
    assert_eq!(apu.output(), [0, 0, 15, 0, 0x55]);
    apu._set_clockrate(1662607);
    assert_eq!(apu.clockrate, 1662607);
}
