//! The scheduler: one instruction at a time, then the copy into sprite
//! memory and the interrupts, frame by frame.

use vstd::prelude::*;
use crate::bus::mapper::Mapper;
use crate::cartridge::{Cartridge, MapperType};
use crate::controller::Btn;
use crate::cpu::status::Flag;
use crate::cpu::Cpu;
use crate::error::EmuError;
use crate::util::Config;
use crate::State;

verus! {

/// Processor cycles in a frame, rounded down.
pub const CYCLES_PER_FRAME: usize = 29780;

/// What the caller does after a step of the scheduler.
#[derive(Clone, Copy, Debug, PartialEq, Eq, Structural)]
pub enum Action {
    /// Call again: the update is not finished.
    Continue,
    /// A frame ended: flush the sound, show the picture, and end the update.
    Flush,
    /// The update is finished.
    Stop,
}

/// The buttons of a host game pad.
#[derive(Clone, Copy, Debug, PartialEq, Eq, Structural)]
pub enum PadButton {
    A,
    B,
    Back,
    Start,
    DPadUp,
    DPadDown,
    DPadLeft,
    DPadRight,
    Other,
}

/// The axes of a host game pad.
#[derive(Clone, Copy, Debug, PartialEq, Eq, Structural)]
pub enum Axis {
    LeftX,
    LeftY,
    Other,
}

/// What the host tells the machine between frames.
#[derive(Clone, Copy, Debug, PartialEq, Eq, Structural)]
pub enum Signal {
    /// End the run.
    Quit,
    /// Halt a running machine, run a halted one.
    TogglePause,
    /// Run to the end of the frame, then halt.
    StepFrame,
    /// Run one instruction, then halt.
    SingleStep,
    /// Run to the next line of the picture, then halt.
    StepScanline,
    /// Reset the processor.
    Reset,
    /// A button of the host pad went down.
    ButtonDown(PadButton),
    /// A button of the host pad came up.
    ButtonUp(PadButton),
    /// A stick of the host pad moved to a position from -32768 to 32767.
    AxisMotion(Axis, i16),
}

/// How far a stick must leave its centre to count as a direction.
pub const DEADZONE: i16 = 5000;

/// The machine with its frame budget and run state.
#[derive(Clone)]
pub struct EmulatorCore {
    pub cpu: Cpu,
    pub cycles_per_frame: usize,
    pub mapper_type: MapperType,
    pub request_termination: bool,
    pub running: bool,
    pub state: State,
    /// The state in which the last instruction was executed.
    pub old_state: State,
    /// Frames since the last one that got two extra cycles.
    pub frame: usize,
    /// Whether a direction of the host pad's cross is held, which takes
    /// precedence over its stick.
    pub dpad_in_use: bool,
}

impl Cpu {
    /// The machine after a pending copy into sprite memory was done.
    #[verifier::opaque]
    pub open spec fn after_pending_dma(self) -> Cpu {
        match self.bus.bus_of().dma_interrupt {
            Some(page) => {
                let s = self.after_dma(page);
                Cpu { bus: s.bus.after_take_dma(), ..s }
            },
            None => self,
        }
    }

    /// The machine after the interrupt with the highest priority among
    /// those asked for was entered: the non-maskable interrupt before any
    /// interrupt request, requests only while interrupts are enabled.
    #[verifier::opaque]
    pub open spec fn after_interrupts(self, nmi: bool, apu_irq: bool, mapper_irq: bool) -> Cpu {
        if nmi {
            (Cpu { bus: self.bus.after_take_nmi(), ..self }).after_nmi()
        } else if !self.p.has(Flag::InterruptDisable) && apu_irq {
            self.after_irq()
        } else if !self.p.has(Flag::InterruptDisable) && mapper_irq {
            (Cpu { bus: self.bus.after_acknowledge(), ..self }).after_irq()
        } else {
            self
        }
    }

    /// The machine after what follows an instruction: the interrupt lines
    /// are sampled, a pending copy into sprite memory is done, and the
    /// sampled interrupt with the highest priority is entered.
    pub open spec fn after_service(self) -> Cpu {
        self.after_pending_dma().after_interrupts(
            self.bus.bus_of().nmi_line(),
            self.bus.bus_of().apu_irq_line(),
            self.bus.bus_of().mapper_irq_line(),
        )
    }

    /// Does a pending copy into sprite memory.
    pub fn pending_dma(&mut self)
        requires
            old(self).fits(514),
        ensures
            *final(self) == old(self).after_pending_dma(),
            final(self).wf(),
            old(self).cyc <= final(self).cyc <= old(self).cyc + 514,
    {
        proof {
            reveal(Cpu::after_pending_dma);
        }
        match self.bus.dma_request() {
            Some(page) => {
                self.dma(page);
                self.bus.take_dma();
            },
            None => {},
        }
    }

    /// Enters the interrupt with the highest priority among those asked for.
    pub fn interrupts(&mut self, nmi: bool, apu_irq: bool, mapper_irq: bool)
        requires
            old(self).fits(14),
        ensures
            *final(self) == old(self).after_interrupts(nmi, apu_irq, mapper_irq),
            final(self).wf(),
            old(self).cyc <= final(self).cyc <= old(self).cyc + 14,
    {
        proof {
            reveal(Cpu::after_interrupts);
        }
        if nmi {
            self.bus.take_nmi();
            self.handle_nmi();
        } else if !self.p.get(Flag::InterruptDisable) && apu_irq {
            self.handle_irq();
        } else if !self.p.get(Flag::InterruptDisable) && mapper_irq {
            self.bus.acknowledge();
            self.handle_irq();
        }
    }

    /// What follows an instruction: the copy into sprite memory, then
    /// the interrupts.
    pub fn service(&mut self)
        requires
            old(self).fits(528),
        ensures
            *final(self) == old(self).after_service(),
            final(self).wf(),
            old(self).cyc <= final(self).cyc <= old(self).cyc + 528,
    {
        let nmi: bool = self.bus.nmi_line();
        let apu_irq: bool = self.bus.apu_irq_line();
        let mapper_irq: bool = self.bus.mapper_irq_line();
        self.pending_dma();
        self.interrupts(nmi, apu_irq, mapper_irq);
    }
}

impl EmulatorCore {
    /// The machine is well formed and the cycle counter has room for one
    /// instruction with what can follow it.
    pub open spec fn wf(self) -> bool {
        self.cpu.fits(535)
    }

    /// The budget of the next frame: the cycles of a frame, two more every
    /// third frame, less the cycles by which this frame overshot its
    /// budget, or plus the cycles it fell short by; never below zero.
    pub open spec fn next_budget(self) -> int {
        let bonus = if (self.frame + 1) % 3 == 0 {
            2int
        } else {
            0int
        };
        let budget = CYCLES_PER_FRAME + bonus + self.cycles_per_frame - self.cpu.cyc;
        if budget < 0 {
            0
        } else if budget > usize::MAX {
            usize::MAX as int
        } else {
            budget
        }
    }

    /// The core at the end of a frame: the next budget is set and the
    /// cycle counter starts from zero.
    pub open spec fn after_adjust(self) -> EmulatorCore {
        EmulatorCore {
            cycles_per_frame: self.next_budget() as usize,
            frame: ((self.frame + 1) % 3) as usize,
            cpu: Cpu { cyc: 0, ..self.cpu },
            ..self
        }
    }

    /// The outcome of one instruction with what follows it, in run state
    /// `state`: a fault of the instruction, or the run state after, which
    /// is `RestartFrame` once the budget of the frame is used up.
    #[verifier::opaque]
    pub open spec fn executing(self, state: State) -> (Result<State, EmuError>, EmulatorCore) {
        let f = self.cpu.stepping();
        match f.0 {
            Err(e) => (Err(e), EmulatorCore { cpu: f.1, ..self }),
            Ok(_) => {
                let cpu = f.1.after_service();
                (
                    Ok(
                        if cpu.cyc > self.cycles_per_frame {
                            State::RestartFrame
                        } else {
                            state
                        },
                    ),
                    EmulatorCore { cpu, ..self },
                )
            },
        }
    }

    /// The run state after an instruction was executed in run state
    /// `state` and left the run state `after`: stepping states halt once
    /// their step is complete, the end of a frame goes first.
    pub open spec fn settled(self, state: State, after: State, dot_before: u16) -> State {
        if after == State::RestartFrame {
            State::RestartFrame
        } else {
            match state {
                State::SingleStep => State::Halted,
                State::StepScanline => if self.cpu.bus.bus_of().ppu.beam.dot < dot_before {
                    State::Halted
                } else {
                    State::StepScanline
                },
                State::StepFrame => if self.cpu.cyc >= self.cycles_per_frame {
                    State::Halted
                } else {
                    State::StepFrame
                },
                _ => after,
            }
        }
    }

    /// The core after the end of a frame was handled: the budget is
    /// adjusted, and the run goes on if it was running, else halts.
    pub open spec fn after_restart(self) -> EmulatorCore {
        EmulatorCore {
            state: if self.old_state == State::Running {
                State::Running
            } else {
                State::Halted
            },
            ..self.after_adjust()
        }
    }

    /// The outcome of executing one instruction in the current run state,
    /// and the core with the run state settled.
    #[verifier::opaque]
    pub open spec fn running_step(self) -> (Result<Action, EmuError>, EmulatorCore) {
        let f = self.executing(self.state);
        match f.0 {
            Err(e) => (Err(e), EmulatorCore { old_state: self.state, ..f.1 }),
            Ok(after) => (
                Ok(Action::Continue),
                EmulatorCore {
                    old_state: self.state,
                    state: f.1.settled(self.state, after, self.cpu.bus.bus_of().ppu.beam.dot),
                    ..f.1
                },
            ),
        }
    }

    /// The outcome of one step of the scheduler and the core after it.
    /// Halted, nothing happens.  At the end of a frame the budget is
    /// adjusted.  In the other states one instruction is executed.
    pub open spec fn stepping(self) -> (Result<Action, EmuError>, EmulatorCore) {
        match self.state {
            State::Halted => (Ok(Action::Stop), self),
            State::RestartFrame => (Ok(Action::Flush), self.after_restart()),
            _ => self.running_step(),
        }
    }

    /// The machine at power-up for `cartridge`, running, with the budget
    /// of one frame: the processor with all registers zero over the mapper
    /// of the cartridge's kind, `sram` in the work RAM of a cartridge that
    /// has one, and the picture unit in its initial state.
    pub fn new(config: &Config, cartridge: Cartridge, sram: [u8; 0x2000], clockrate: u32) -> (core:
        EmulatorCore)
        requires
            cartridge.fits_slot(false),
        ensures
            core.wf(),
            core.cycles_per_frame == CYCLES_PER_FRAME,
            core.mapper_type == cartridge.mapper_type,
            !core.request_termination,
            core.running,
            core.state == State::Running,
            core.old_state == State::Running,
            core.frame == 0,
            !core.dpad_in_use,
            core.cpu.cyc == 0,
            core.cpu.pc == 0,
            core.cpu.sp == 0,
            !core.cpu.nmi_acknowledged,
            core.cpu.regs@ == seq![0u8, 0u8, 0u8],
            core.cpu.p.flags@ == seq![false, false, false, false, false, true, false, false],
            core.cpu.config.filename == config.filename,
            core.cpu.bus.fault_of() is None,
            match cartridge.mapper_type {
                MapperType::Nrom => core.cpu.bus is Mapper0,
                MapperType::MMC1 => core.cpu.bus matches Mapper::Mapper1(m) && m.sram == sram,
                MapperType::Uxrom => core.cpu.bus is Mapper2,
                MapperType::Cnrom => core.cpu.bus is Mapper3,
                MapperType::MMC3 => core.cpu.bus matches Mapper::Mapper4(m) && m.sram == sram,
                MapperType::Axrom => core.cpu.bus is Mapper7,
            },
            core.cpu.bus.bus_of().ppu.is_initial(
                cartridge.chr_rom->0,
                cartridge.mirroring,
                cartridge.mapper_type,
            ),
    {
        let mapper_type = cartridge.mapper_type;
        EmulatorCore {
            cpu: Cpu::new(config, cartridge, sram, clockrate, false),
            cycles_per_frame: CYCLES_PER_FRAME,
            mapper_type,
            request_termination: false,
            running: true,
            state: State::Running,
            old_state: State::Running,
            frame: 0,
            dpad_in_use: false,
        }
    }

    /// Sets the budget of the next frame and restarts the cycle counter.
    pub fn adjust_cycles_per_frame(&mut self)
        requires
            old(self).cpu.wf(),
        ensures
            *final(self) == old(self).after_adjust(),
            final(self).wf(),
    {
        let bonus: usize = if (self.frame % 3 + 1) % 3 == 0 {
            2
        } else {
            0
        };
        let budget: usize = CYCLES_PER_FRAME + bonus;
        let cyc: usize = self.cpu.cyc;
        let next: usize = if cyc >= self.cycles_per_frame {
            let over: usize = cyc - self.cycles_per_frame;
            if over <= budget {
                budget - over
            } else {
                0
            }
        } else {
            let under: usize = self.cycles_per_frame - cyc;
            if under <= usize::MAX - budget {
                budget + under
            } else {
                usize::MAX
            }
        };
        self.cpu.cyc = 0;
        self.frame = (self.frame % 3 + 1) % 3;
        self.cycles_per_frame = next;
    }

    /// Executes one instruction and what follows it.
    pub fn execute(&mut self, state: State) -> (r: Result<State, EmuError>)
        requires
            old(self).wf(),
        ensures
            (r, *final(self)) == old(self).executing(state),
            final(self).cpu.wf(),
            final(self).cycles_per_frame == old(self).cycles_per_frame,
    {
        proof {
            reveal(EmulatorCore::executing);
        }
        match self.cpu.fetch_decode_and_execute() {
            Err(e) => Err(e),
            Ok(_) => {
                assert(self.cpu.cyc <= old(self).cpu.cyc + 7) by {
                    lemma_step_cycles_bound(old(self).cpu);
                }
                self.cpu.service();
                if self.cpu.cyc > self.cycles_per_frame {
                    Ok(State::RestartFrame)
                } else {
                    Ok(state)
                }
            },
        }
    }

    /// Computes `settled`.
    pub fn settle(&self, state: State, after: State, dot_before: u16) -> (r: State)
        ensures
            r == self.settled(state, after, dot_before),
    {
        if after == State::RestartFrame {
            State::RestartFrame
        } else {
            match state {
                State::SingleStep => State::Halted,
                State::StepScanline => if self.cpu.bus.bus_ref().ppu.beam.dot < dot_before {
                    State::Halted
                } else {
                    State::StepScanline
                },
                State::StepFrame => if self.cpu.cyc >= self.cycles_per_frame {
                    State::Halted
                } else {
                    State::StepFrame
                },
                _ => after,
            }
        }
    }

    /// Handles the end of a frame.
    pub fn restart_frame(&mut self)
        requires
            old(self).cpu.wf(),
        ensures
            *final(self) == old(self).after_restart(),
            final(self).wf(),
    {
        let next: State = if self.old_state == State::Running {
            State::Running
        } else {
            State::Halted
        };
        self.adjust_cycles_per_frame();
        self.state = next;
    }

    /// Executes one instruction in the current run state and settles the
    /// run state.
    pub fn run_step(&mut self) -> (r: Result<Action, EmuError>)
        requires
            old(self).wf(),
        ensures
            (r, *final(self)) == old(self).running_step(),
            final(self).cpu.wf(),
    {
        proof {
            reveal(EmulatorCore::running_step);
        }
        let state: State = self.state;
        let dot_before: u16 = self.cpu.bus.bus_ref().ppu.beam.dot;
        match self.execute(state) {
            Err(e) => {
                self.old_state = state;
                Err(e)
            },
            Ok(after) => {
                let settled: State = self.settle(state, after, dot_before);
                self.old_state = state;
                self.state = settled;
                Ok(Action::Continue)
            },
        }
    }

    /// One step of the scheduler.
    pub fn update_step(&mut self) -> (r: Result<Action, EmuError>)
        requires
            old(self).wf(),
        ensures
            (r, *final(self)) == old(self).stepping(),
            final(self).cpu.wf(),
    {
        match self.state {
            State::Halted => Ok(Action::Stop),
            State::RestartFrame => {
                self.restart_frame();
                Ok(Action::Flush)
            },
            _ => self.run_step(),
        }
    }

    /// Whether the cycle counter has room for another step of the scheduler.
    pub fn has_room(&self) -> (r: bool)
        requires
            self.cpu.wf(),
        ensures
            r == self.wf(),
    {
        self.cpu.cyc <= usize::MAX - 535
    }
}

impl EmulatorCore {
    /// The core with button `button` of the game pad held or let go.
    pub open spec fn with_button(self, button: Btn, down: bool) -> EmulatorCore {
        EmulatorCore {
            cpu: Cpu { bus: self.cpu.bus.after_button(button, down), ..self.cpu },
            ..self
        }
    }

    /// The core with the cross of the host pad held or let go.
    pub open spec fn with_dpad(self, held: bool) -> EmulatorCore {
        EmulatorCore { dpad_in_use: held, ..self }
    }

    /// The core after a button of the host pad went down.  Up and down
    /// exclude each other; a direction of the cross marks the cross as held.
    pub open spec fn after_button_down(self, button: PadButton) -> EmulatorCore {
        match button {
            PadButton::A => self.with_button(Btn::A, true),
            PadButton::B => self.with_button(Btn::B, true),
            PadButton::Back => self.with_button(Btn::Select, true),
            PadButton::Start => self.with_button(Btn::Start, true),
            PadButton::DPadUp => self.with_dpad(true).with_button(Btn::Down, false).with_button(
                Btn::Up,
                true,
            ),
            PadButton::DPadDown => self.with_dpad(true).with_button(Btn::Up, false).with_button(
                Btn::Down,
                true,
            ),
            PadButton::DPadLeft => self.with_dpad(true).with_button(Btn::Left, false).with_button(
                Btn::Left,
                true,
            ),
            PadButton::DPadRight => self.with_dpad(true).with_button(
                Btn::Right,
                false,
            ).with_button(Btn::Right, true),
            PadButton::Other => self,
        }
    }

    /// The core after a button of the host pad came up.
    pub open spec fn after_button_up(self, button: PadButton) -> EmulatorCore {
        match button {
            PadButton::A => self.with_button(Btn::A, false),
            PadButton::B => self.with_button(Btn::B, false),
            PadButton::Back => self.with_button(Btn::Select, false),
            PadButton::Start => self.with_button(Btn::Start, false),
            PadButton::DPadUp => self.with_dpad(false).with_button(Btn::Up, false),
            PadButton::DPadDown => self.with_dpad(false).with_button(Btn::Down, false),
            PadButton::DPadLeft => self.with_dpad(false).with_button(Btn::Left, false),
            PadButton::DPadRight => self.with_dpad(false).with_button(Btn::Right, false),
            PadButton::Other => self,
        }
    }

    /// The core after the two buttons of an axis were let go and the one
    /// that the position `value` points to, beyond the dead zone, was held.
    pub open spec fn after_direction(self, low: Btn, high: Btn, value: i16) -> EmulatorCore {
        let idle = self.with_button(low, false).with_button(high, false);
        if value < -DEADZONE {
            idle.with_button(low, true)
        } else if value > DEADZONE {
            idle.with_button(high, true)
        } else {
            idle
        }
    }

    /// The core after a stick of the host pad moved; ignored while the
    /// cross is held.
    pub open spec fn after_axis(self, axis: Axis, value: i16) -> EmulatorCore {
        if self.dpad_in_use {
            self
        } else {
            match axis {
                Axis::LeftX => self.after_direction(Btn::Left, Btn::Right, value),
                Axis::LeftY => self.after_direction(Btn::Up, Btn::Down, value),
                Axis::Other => self,
            }
        }
    }

    /// The core after a signal of the host.
    pub open spec fn after_signal(self, signal: Signal) -> EmulatorCore {
        match signal {
            Signal::Quit => EmulatorCore { request_termination: true, ..self },
            Signal::TogglePause => EmulatorCore {
                state: if self.state == State::Running {
                    State::Halted
                } else {
                    State::Running
                },
                ..self
            },
            Signal::StepFrame => EmulatorCore { state: State::StepFrame, ..self },
            Signal::SingleStep => EmulatorCore { state: State::SingleStep, ..self },
            Signal::StepScanline => EmulatorCore { state: State::StepScanline, ..self },
            Signal::Reset => EmulatorCore { cpu: self.cpu.after_reset(), ..self },
            Signal::ButtonDown(button) => self.after_button_down(button),
            Signal::ButtonUp(button) => self.after_button_up(button),
            Signal::AxisMotion(axis, value) => self.after_axis(axis, value),
        }
    }

    /// Holds a button of the game pad down or lets it go.
    pub fn set_button(&mut self, button: Btn, down: bool)
        requires
            old(self).cpu.wf(),
        ensures
            *final(self) == old(self).with_button(button, down),
            final(self).cpu.wf(),
            final(self).cpu.cyc == old(self).cpu.cyc,
    {
        self.cpu.bus.set_button(button, down);
    }

    /// A button of the host pad went down.
    pub fn button_down(&mut self, button: PadButton)
        requires
            old(self).cpu.wf(),
        ensures
            *final(self) == old(self).after_button_down(button),
            final(self).cpu.wf(),
            final(self).cpu.cyc == old(self).cpu.cyc,
    {
        match button {
            PadButton::A => self.set_button(Btn::A, true),
            PadButton::B => self.set_button(Btn::B, true),
            PadButton::Back => self.set_button(Btn::Select, true),
            PadButton::Start => self.set_button(Btn::Start, true),
            PadButton::DPadUp => {
                self.dpad_in_use = true;
                self.set_button(Btn::Down, false);
                self.set_button(Btn::Up, true);
            },
            PadButton::DPadDown => {
                self.dpad_in_use = true;
                self.set_button(Btn::Up, false);
                self.set_button(Btn::Down, true);
            },
            PadButton::DPadLeft => {
                self.dpad_in_use = true;
                self.set_button(Btn::Left, false);
                self.set_button(Btn::Left, true);
            },
            PadButton::DPadRight => {
                self.dpad_in_use = true;
                self.set_button(Btn::Right, false);
                self.set_button(Btn::Right, true);
            },
            PadButton::Other => {},
        }
    }

    /// A button of the host pad came up.
    pub fn button_up(&mut self, button: PadButton)
        requires
            old(self).cpu.wf(),
        ensures
            *final(self) == old(self).after_button_up(button),
            final(self).cpu.wf(),
            final(self).cpu.cyc == old(self).cpu.cyc,
    {
        match button {
            PadButton::A => self.set_button(Btn::A, false),
            PadButton::B => self.set_button(Btn::B, false),
            PadButton::Back => self.set_button(Btn::Select, false),
            PadButton::Start => self.set_button(Btn::Start, false),
            PadButton::DPadUp => {
                self.dpad_in_use = false;
                self.set_button(Btn::Up, false);
            },
            PadButton::DPadDown => {
                self.dpad_in_use = false;
                self.set_button(Btn::Down, false);
            },
            PadButton::DPadLeft => {
                self.dpad_in_use = false;
                self.set_button(Btn::Left, false);
            },
            PadButton::DPadRight => {
                self.dpad_in_use = false;
                self.set_button(Btn::Right, false);
            },
            PadButton::Other => {},
        }
    }

    /// Turns the position of an axis into the two buttons of its directions.
    pub fn direction(&mut self, low: Btn, high: Btn, value: i16)
        requires
            old(self).cpu.wf(),
        ensures
            *final(self) == old(self).after_direction(low, high, value),
            final(self).cpu.wf(),
            final(self).cpu.cyc == old(self).cpu.cyc,
    {
        if value < -DEADZONE {
            self.set_button(low, false);
            self.set_button(high, false);
            self.set_button(low, true);
        } else if value > DEADZONE {
            self.set_button(low, false);
            self.set_button(high, false);
            self.set_button(high, true);
        } else {
            self.set_button(low, false);
            self.set_button(high, false);
        }
    }

    /// A stick of the host pad moved.
    pub fn axis_motion(&mut self, axis: Axis, value: i16)
        requires
            old(self).cpu.wf(),
        ensures
            *final(self) == old(self).after_axis(axis, value),
            final(self).cpu.wf(),
            final(self).cpu.cyc == old(self).cpu.cyc,
    {
        if self.dpad_in_use {
            return ;
        }
        match axis {
            Axis::LeftX => self.direction(Btn::Left, Btn::Right, value),
            Axis::LeftY => self.direction(Btn::Up, Btn::Down, value),
            Axis::Other => {},
        }
    }

    /// Takes a signal of the host: the end of the run, a change of the run
    /// state, a reset, or a change at the game pad.
    pub fn handle_input(&mut self, signal: Signal)
        requires
            old(self).cpu.fits(7),
        ensures
            *final(self) == old(self).after_signal(signal),
            final(self).cpu.wf(),
    {
        match signal {
            Signal::Quit => {
                self.request_termination = true;
            },
            Signal::TogglePause => {
                self.state = if self.state == State::Running {
                    State::Halted
                } else {
                    State::Running
                };
            },
            Signal::StepFrame => {
                self.state = State::StepFrame;
            },
            Signal::SingleStep => {
                self.state = State::SingleStep;
            },
            Signal::StepScanline => {
                self.state = State::StepScanline;
            },
            Signal::Reset => {
                self.cpu.reset();
            },
            Signal::ButtonDown(button) => self.button_down(button),
            Signal::ButtonUp(button) => self.button_up(button),
            Signal::AxisMotion(axis, value) => self.axis_motion(axis, value),
        }
    }
}

/// No instruction takes more than seven cycles.
pub proof fn lemma_step_cycles_bound(cpu: Cpu)
    ensures
        0 <= cpu.step_cycles() <= 7,
{
    let f = cpu.fetching_byte();
    match crate::cpu::instruction::decoded(f.0) {
        None => {},
        Some(d) => {
            crate::cpu::instruction::lemma_decoded_is_supported(f.0);
            let o = f.1.fetching_operand(d.1);
            crate::cpu::instruction::lemma_cycles_bound(o.1, d.0, d.1, o.0);
        },
    }
}

} // verus!
