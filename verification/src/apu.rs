//! The audio unit: frame sequencer and five channels.

use vstd::prelude::*;

use crate::apu::dmc::Dmc;
use crate::apu::noise::Noise;
use crate::apu::pulse::sweep::Mode;
use crate::apu::pulse::Pulse;
use crate::apu::triangle::Triangle;
use crate::util::bit::{bit8, bit_at};
use crate::util::{bool_bit, flag_bit};

pub mod dmc;
pub mod envelope;
pub mod noise;
pub mod pulse;
pub mod triangle;

verus! {

/// Length-counter values by the five-bit index written with the timer's high bits.
pub const LENGTHS: [u8; 32] = [
    10, 254, 20, 2, 40, 4, 80, 6, 160, 8, 60, 10, 14, 12, 26, 14, 12, 16, 24, 18, 48, 20, 96, 22,
    192, 24, 72, 26, 16, 28, 32, 30,
];

/// The length-counter value for index `idx`.
pub open spec fn length_value(idx: int) -> u8 {
    LENGTHS[idx]
}

/// Looks up `length_value`.
pub fn length_for(idx: usize) -> (len: u8)
    requires
        idx < 32,
    ensures
        len == length_value(idx as int),
{
    LENGTHS[idx]
}

/// The two step sequences of the frame counter.
#[derive(Clone, Copy, Debug, PartialEq, Eq, Structural)]
pub enum SequenceMode {
    FourStep,
    FiveStep,
}

/// The cycle of the audio unit at which step `step` of a sequence falls due.
pub open spec fn step_cycle(mode: SequenceMode, step: int) -> int {
    match mode {
        SequenceMode::FourStep => if step == 0 {
            7457
        } else if step == 1 {
            14913
        } else if step == 2 {
            22371
        } else if step == 3 {
            29828
        } else if step == 4 {
            29829
        } else {
            29830
        },
        SequenceMode::FiveStep => if step == 0 {
            7457
        } else if step == 1 {
            14913
        } else if step == 2 {
            22371
        } else if step == 3 {
            29829
        } else if step == 4 {
            37281
        } else {
            37282
        },
    }
}

/// Computes `step_cycle`.
pub fn cycle_of_step(mode: SequenceMode, step: usize) -> (c: usize)
    ensures
        c == step_cycle(mode, step as int),
{
    match mode {
        SequenceMode::FourStep => if step == 0 {
            7457
        } else if step == 1 {
            14913
        } else if step == 2 {
            22371
        } else if step == 3 {
            29828
        } else if step == 4 {
            29829
        } else {
            29830
        },
        SequenceMode::FiveStep => if step == 0 {
            7457
        } else if step == 1 {
            14913
        } else if step == 2 {
            22371
        } else if step == 3 {
            29829
        } else if step == 4 {
            37281
        } else {
            37282
        },
    }
}

/// The audio unit.
#[derive(Clone, Copy, Debug)]
pub struct Apu {
    pub dmc: Dmc,
    pub interrupt: bool,
    pub clockrate: u32,
    pub frame_counter: usize,
    pub irq_inhibit: bool,
    pub mode: SequenceMode,
    pub cycles: usize,
    pub noise: Noise,
    pub pulse1: Pulse,
    pub pulse2: Pulse,
    pub triangle: Triangle,
    pub request_cycles: usize,
    pub reset_requested: bool,
}

impl Apu {
    /// The sequencer step is one of six and the channels are well formed.
    pub open spec fn wf(self) -> bool {
        &&& self.frame_counter <= 5
        &&& self.pulse1.wf()
        &&& self.pulse2.wf()
        &&& self.triangle.wf()
    }

    /// The unit after the length counters of the four counted channels were clocked.
    pub open spec fn after_update_lens(self) -> Self {
        Apu {
            pulse1: self.pulse1.after_dec_len(),
            pulse2: self.pulse2.after_dec_len(),
            triangle: self.triangle.after_dec_len(),
            noise: self.noise.after_dec_len(),
            ..self
        }
    }

    /// The unit after both sweep units were clocked.
    pub open spec fn after_update_sweep(self) -> Self {
        Apu {
            pulse1: self.pulse1.after_update_sweep(),
            pulse2: self.pulse2.after_update_sweep(),
            ..self
        }
    }

    /// The unit after the three envelopes were clocked.
    pub open spec fn after_update_envs(self) -> Self {
        Apu {
            pulse1: self.pulse1.after_update_env(),
            pulse2: self.pulse2.after_update_env(),
            noise: self.noise.after_update_env(),
            ..self
        }
    }

    /// The unit after a quarter-frame clock: envelopes and linear counter.
    pub open spec fn after_quarter(self) -> Self {
        let s = self.after_update_envs();
        Apu { triangle: s.triangle.after_dec_lin(), ..s }
    }

    /// The unit after a half-frame clock: lengths, sweeps, envelopes, linear counter.
    pub open spec fn after_half(self) -> Self {
        self.after_update_lens().after_update_sweep().after_quarter()
    }

    /// The unit after the clocks of sequencer step `step`: steps 0 and 2
    /// clock a quarter frame, steps 1 and 4 a half frame.
    pub open spec fn after_frame_clocks(self, step: usize) -> Self {
        if step == 0 || step == 2 {
            self.after_quarter()
        } else if step == 1 || step == 4 {
            self.after_half()
        } else {
            self
        }
    }

    /// The unit after the sequencer step that is due.  In the four-step
    /// sequence steps 3, 4 and 5 raise the frame interrupt unless it is
    /// inhibited; step 5 restarts the cycle count.
    pub open spec fn after_tock(self) -> Self {
        let step = self.frame_counter;
        let four = self.mode == SequenceMode::FourStep;
        Apu {
            interrupt: if four && step >= 3 {
                !self.irq_inhibit
            } else {
                self.interrupt
            },
            cycles: if step == 5 {
                0
            } else {
                self.cycles
            },
            frame_counter: ((step + 1) % 6) as usize,
            ..self.after_frame_clocks(step)
        }
    }

    /// The unit after a pending restart of the sequence counted down or took effect.
    pub open spec fn after_restart_step(self) -> Self {
        if !self.reset_requested {
            self
        } else if self.request_cycles == 0 {
            Apu { reset_requested: false, frame_counter: 0, cycles: 0, ..self.after_quarter() }
        } else {
            Apu { request_cycles: (self.request_cycles - 1) as usize, ..self }
        }
    }

    /// The unit after the channel timers ran: the triangle on every cycle,
    /// the others on even cycles.
    pub open spec fn after_timers(self) -> Self {
        if self.cycles % 2 == 0 {
            Apu {
                triangle: self.triangle.after_tick(),
                pulse1: self.pulse1.after_tick(),
                pulse2: self.pulse2.after_tick(),
                noise: self.noise.after_tick(),
                dmc: self.dmc.after_tick(),
                ..self
            }
        } else {
            Apu { triangle: self.triangle.after_tick(), ..self }
        }
    }

    /// The unit after the sequencer step was taken if it is due, and the
    /// cycle was counted.
    pub open spec fn after_sequencer(self) -> Self {
        let s = if self.cycles == step_cycle(self.mode, self.frame_counter as int) {
            self.after_tock()
        } else {
            self
        };
        Apu {
            cycles: if s.cycles == usize::MAX {
                0
            } else {
                (s.cycles + 1) as usize
            },
            ..s
        }
    }

    /// The unit after one processor cycle.
    #[verifier::opaque]
    pub open spec fn after_tick(self) -> Self {
        self.after_restart_step().after_timers().after_sequencer()
    }

    /// What a read of the status register at 0x4015 returns: the interrupt
    /// latches in bits 7 and 6, and one bit per channel with bytes or length left.
    pub open spec fn status(self) -> u8 {
        (bool_bit(self.dmc.irq) * 128 + bool_bit(self.interrupt) * 64 + bool_bit(
            self.dmc.length > 0,
        ) * 16 + bool_bit(self.noise.length > 0) * 8 + bool_bit(self.triangle.length > 0) * 4
            + bool_bit(self.pulse2.length > 0) * 2 + bool_bit(self.pulse1.length > 0)) as u8
    }

    /// What a read at `addr` returns.
    pub open spec fn read_value(self, addr: u16) -> u8 {
        if addr == 0x4015 {
            self.status()
        } else {
            0
        }
    }

    /// The unit after a read at `addr`: reading the status clears the frame interrupt.
    pub open spec fn after_read(self, addr: u16) -> Self {
        if addr == 0x4015 {
            Apu { interrupt: false, ..self }
        } else {
            self
        }
    }

    /// The unit after `data` was written to the status register: the sample
    /// interrupt is acknowledged and each channel follows its enable bit.
    pub open spec fn after_write_status(self, data: u8) -> Self {
        Apu {
            dmc: (Dmc { irq: false, ..self.dmc }).after_enable(bit_at(data as int, 4)),
            pulse1: self.pulse1.after_enable(bit_at(data as int, 0)),
            pulse2: self.pulse2.after_enable(bit_at(data as int, 1)),
            triangle: self.triangle.after_enable(bit_at(data as int, 2)),
            noise: self.noise.after_enable(bit_at(data as int, 3)),
            ..self
        }
    }

    /// The unit after `data` was written to the frame-counter register: the
    /// five-step mode clocks a half frame at once and asks for a restart of
    /// the sequence 3 cycles later, or 4 on an odd cycle.
    pub open spec fn after_write_frame_counter(self, data: u8) -> Self {
        let five = bit_at(data as int, 7);
        let inhibit = bit_at(data as int, 6);
        let s = Apu {
            mode: if five {
                SequenceMode::FiveStep
            } else {
                SequenceMode::FourStep
            },
            irq_inhibit: inhibit,
            ..self
        };
        let s = if five {
            Apu {
                reset_requested: true,
                request_cycles: if self.cycles % 2 == 0 {
                    3
                } else {
                    4
                },
                ..s.after_update_lens().after_update_sweep()
            }
        } else {
            s
        };
        Apu { interrupt: s.interrupt && !inhibit, ..s }
    }

    /// The unit after `data` was written at `addr`.
    pub open spec fn after_write(self, addr: u16, data: u8) -> Self {
        if 0x4000 <= addr <= 0x4003 {
            Apu { pulse1: self.pulse1.after_write((addr - 0x4000) as usize, data), ..self }
        } else if 0x4004 <= addr <= 0x4007 {
            Apu { pulse2: self.pulse2.after_write((addr - 0x4004) as usize, data), ..self }
        } else if addr == 0x4008 || addr == 0x400A || addr == 0x400B {
            Apu { triangle: self.triangle.after_write((addr - 0x4008) as usize, data), ..self }
        } else if addr == 0x400C || addr == 0x400E || addr == 0x400F {
            Apu { noise: self.noise.after_write((addr - 0x400C) as usize, data), ..self }
        } else if 0x4010 <= addr <= 0x4013 {
            Apu { dmc: self.dmc.after_write((addr - 0x4010) as usize, data), ..self }
        } else if addr == 0x4015 {
            self.after_write_status(data)
        } else if addr == 0x4017 {
            self.after_write_frame_counter(data)
        } else {
            self
        }
    }

    /// The five channel levels: both pulses, triangle, noise, sample channel.
    pub open spec fn levels(self) -> Seq<u8> {
        seq![
            self.pulse1.level(),
            self.pulse2.level(),
            self.triangle.level(),
            self.noise.level(),
            self.dmc.output,
        ]
    }

    /// A silent unit at the start of the four-step sequence.
    pub fn new(clockrate: u32) -> (a: Apu)
        ensures
            a.wf(),
            a.clockrate == clockrate,
            a.cycles == 0,
            a.frame_counter == 0,
            !a.interrupt,
            !a.irq_inhibit,
            !a.reset_requested,
            a.request_cycles == 0,
            a.mode == SequenceMode::FourStep,
            a.pulse1.mode == Mode::OnesComplement,
            a.pulse2.mode == Mode::TwosComplement,
            a.levels() == seq![0u8, 0u8, 0u8, 0u8, 0u8],
            a.status() == 0,
            !a.dmc.wants_sample(),
    {
        Apu {
            dmc: Dmc::new(),
            interrupt: false,
            clockrate,
            cycles: 0,
            frame_counter: 0,
            irq_inhibit: false,
            mode: SequenceMode::FourStep,
            noise: Noise::new(),
            pulse1: Pulse::new(Mode::OnesComplement, clockrate),
            pulse2: Pulse::new(Mode::TwosComplement, clockrate),
            request_cycles: 0,
            reset_requested: false,
            triangle: Triangle::new(clockrate),
        }
    }

    /// The five channel levels, for the mixer: both pulses, triangle, noise,
    /// sample channel.
    pub fn output(&self) -> (out: [u8; 5])
        requires
            self.wf(),
        ensures
            out@ == self.levels(),
    {
        [
            self.pulse1.output(),
            self.pulse2.output(),
            self.triangle.output(),
            self.noise.output(),
            self.dmc.output(),
        ]
    }

    /// Reads a register; only the status register at 0x4015 holds anything,
    /// and reading it clears the frame interrupt.
    pub fn read(&mut self, addr: u16) -> (r: u8)
        requires
            0x4000 <= addr <= 0x4015,
        ensures
            r == old(self).read_value(addr),
            *final(self) == old(self).after_read(addr),
            old(self).wf() ==> final(self).wf(),
    {
        if addr == 0x4015 {
            let dmc_interrupt: u8 = flag_bit(self.dmc.irq);
            let frame_interrupt: u8 = flag_bit(self.interrupt);
            let dmc_active: u8 = flag_bit(self.dmc.length > 0);
            let noise_len: u8 = flag_bit(self.noise.length > 0);
            let triangle_len: u8 = flag_bit(self.triangle.length > 0);
            let pulse1_len: u8 = flag_bit(self.pulse1.length > 0);
            let pulse2_len: u8 = flag_bit(self.pulse2.length > 0);
            self.interrupt = false;
            dmc_interrupt * 128 + frame_interrupt * 64 + dmc_active * 16 + noise_len * 8
                + triangle_len * 4 + pulse2_len * 2 + pulse1_len
        } else {
            0
        }
    }

    /// Changes the clock rate the channels were built for.
    pub fn _set_clockrate(&mut self, clockrate: u32)
        ensures
            *final(self) == (Apu { clockrate, ..*old(self) }),
    {
        self.clockrate = clockrate;
    }

    /// Lets a pending restart of the sequence count down or take effect.
    pub fn restart_step(&mut self)
        requires
            old(self).wf(),
        ensures
            *final(self) == old(self).after_restart_step(),
            final(self).wf(),
    {
        if !self.reset_requested {
        } else if self.request_cycles == 0 {
            self.quarter_frame();
            self.reset_requested = false;
            self.frame_counter = 0;
            self.cycles = 0;
        } else {
            self.request_cycles = self.request_cycles - 1;
        }
    }

    /// Runs the channel timers.
    pub fn timers_step(&mut self)
        requires
            old(self).wf(),
        ensures
            *final(self) == old(self).after_timers(),
            final(self).wf(),
    {
        if self.cycles % 2 == 0 {
            self.triangle.tick();
            self.pulse1.tick();
            self.pulse2.tick();
            self.noise.tick();
            self.dmc.tick();
        } else {
            self.triangle.tick();
        }
    }

    /// Takes the sequencer step if it is due, and counts the cycle.
    pub fn sequencer_step(&mut self)
        requires
            old(self).wf(),
        ensures
            *final(self) == old(self).after_sequencer(),
            final(self).wf(),
    {
        if self.cycles == cycle_of_step(self.mode, self.frame_counter) {
            self.tock();
            self.cycles = if self.cycles == usize::MAX {
                0
            } else {
                self.cycles + 1
            };
        } else {
            self.cycles = if self.cycles == usize::MAX {
                0
            } else {
                self.cycles + 1
            };
        }
    }

    /// One processor cycle: a pending sequence restart counts down, the
    /// triangle timer runs, the other timers run on even cycles, and the
    /// sequencer step that falls due is taken.
    pub fn tick(&mut self)
        requires
            old(self).wf(),
        ensures
            *final(self) == old(self).after_tick(),
            final(self).wf(),
    {
        proof {
            reveal(Apu::after_tick);
        }
        self.restart_step();
        self.timers_step();
        self.sequencer_step();
    }

    /// A quarter-frame clock: envelopes and linear counter.
    pub fn quarter_frame(&mut self)
        ensures
            *final(self) == old(self).after_quarter(),
            old(self).wf() ==> final(self).wf(),
    {
        self.update_envs();
        self.triangle.dec_lin();
    }

    /// A half-frame clock: lengths, sweeps, envelopes, linear counter.
    pub fn half_frame(&mut self)
        ensures
            *final(self) == old(self).after_half(),
            old(self).wf() ==> final(self).wf(),
    {
        self.update_lens();
        self.update_sweep();
        self.quarter_frame();
    }

    /// The clocks of sequencer step `step`.
    pub fn frame_clocks(&mut self, step: usize)
        ensures
            *final(self) == old(self).after_frame_clocks(step),
            old(self).wf() ==> final(self).wf(),
    {
        if step == 0 || step == 2 {
            self.quarter_frame();
        } else if step == 1 || step == 4 {
            self.half_frame();
        }
    }

    /// Takes the sequencer step that is due.
    pub fn tock(&mut self)
        requires
            old(self).wf(),
        ensures
            *final(self) == old(self).after_tock(),
            final(self).wf(),
    {
        let step: usize = self.frame_counter;
        let four: bool = self.mode == SequenceMode::FourStep;
        let interrupt: bool = if four && step >= 3 {
            !self.irq_inhibit
        } else {
            self.interrupt
        };
        let cycles: usize = if step == 5 {
            0
        } else {
            self.cycles
        };
        self.frame_clocks(step);
        self.interrupt = interrupt;
        self.cycles = cycles;
        self.frame_counter = (step + 1) % 6;
    }

    /// Clocks the four length counters.
    pub fn update_lens(&mut self)
        ensures
            *final(self) == old(self).after_update_lens(),
            old(self).wf() ==> final(self).wf(),
    {
        self.pulse1.dec_len();
        self.pulse2.dec_len();
        self.triangle.dec_len();
        self.noise.dec_len();
    }

    /// Clocks both sweep units.
    pub fn update_sweep(&mut self)
        ensures
            *final(self) == old(self).after_update_sweep(),
            old(self).wf() ==> final(self).wf(),
    {
        self.pulse1.update_sweep();
        self.pulse2.update_sweep();
    }

    /// Clocks the three envelopes.
    pub fn update_envs(&mut self)
        ensures
            *final(self) == old(self).after_update_envs(),
            old(self).wf() ==> final(self).wf(),
    {
        self.pulse1.update_env();
        self.pulse2.update_env();
        self.noise.update_env();
    }

    /// Writes a register.  0x4000-0x4013 belong to the channels, 0x4015
    /// enables them, 0x4017 sets up the frame counter; other addresses hold nothing.
    pub fn write(&mut self, addr: u16, data: u8)
        ensures
            *final(self) == old(self).after_write(addr, data),
            old(self).wf() ==> final(self).wf(),
    {
        if 0x4000 <= addr && addr <= 0x4003 {
            self.pulse1.write((addr - 0x4000) as usize, data);
        } else if 0x4004 <= addr && addr <= 0x4007 {
            self.pulse2.write((addr - 0x4004) as usize, data);
        } else if addr == 0x4008 || addr == 0x400A || addr == 0x400B {
            self.triangle.write((addr - 0x4008) as usize, data);
        } else if addr == 0x400C || addr == 0x400E || addr == 0x400F {
            self.noise.write((addr - 0x400C) as usize, data);
        } else if 0x4010 <= addr && addr <= 0x4013 {
            self.dmc.write((addr - 0x4010) as usize, data);
        } else if addr == 0x4015 {
            self.write_status(data);
        } else if addr == 0x4017 {
            self.write_frame_counter(data);
        }
    }

    /// Writes the status register.
    pub fn write_status(&mut self, data: u8)
        ensures
            *final(self) == old(self).after_write_status(data),
            old(self).wf() ==> final(self).wf(),
    {
        let dmc_enabled: bool = bit8(data, 4);
        let noise_enabled: bool = bit8(data, 3);
        let triangle_enabled: bool = bit8(data, 2);
        let pulse2_enabled: bool = bit8(data, 1);
        let pulse1_enabled: bool = bit8(data, 0);
        self.dmc.irq = false;
        self.pulse1.enable(pulse1_enabled);
        self.pulse2.enable(pulse2_enabled);
        self.triangle.enable(triangle_enabled);
        self.noise.enable(noise_enabled);
        self.dmc.enable(dmc_enabled);
    }

    /// Writes the frame-counter register.
    pub fn write_frame_counter(&mut self, data: u8)
        ensures
            *final(self) == old(self).after_write_frame_counter(data),
            old(self).wf() ==> final(self).wf(),
    {
        let mode: bool = bit8(data, 7);
        let irq_inhibit: bool = bit8(data, 6);
        let request: usize = if self.cycles % 2 == 0 {
            3
        } else {
            4
        };
        let interrupt: bool = self.interrupt && !irq_inhibit;
        if mode {
            self.mode = SequenceMode::FiveStep;
            self.irq_inhibit = irq_inhibit;
            self.update_lens();
            self.update_sweep();
            self.reset_requested = true;
            self.request_cycles = request;
            self.interrupt = interrupt;
        } else {
            self.mode = SequenceMode::FourStep;
            self.irq_inhibit = irq_inhibit;
            self.interrupt = interrupt;
        }
    }
}

/// Writing the status register acknowledges the sample interrupt.
pub proof fn lemma_status_write_acknowledges(a: Apu, data: u8)
    ensures
        !a.after_write(0x4015, data).dmc.irq,
{
}

/// Reading the status register reports and then clears the frame interrupt,
/// and leaves the sample interrupt as it is.
pub proof fn lemma_status_read_clears_frame_interrupt(a: Apu)
    ensures
        bit_at(a.read_value(0x4015) as int, 6) == a.interrupt,
        bit_at(a.read_value(0x4015) as int, 7) == a.dmc.irq,
        !a.after_read(0x4015).interrupt,
        a.after_read(0x4015).dmc.irq == a.dmc.irq,
{
}

} // verus!
