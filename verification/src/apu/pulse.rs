//! The two pulse channels.

use vstd::prelude::*;
use crate::apu::envelope::Envelope;
use crate::apu::pulse::sweep::{Mode, Sweep};
use crate::apu::{length_for, length_value};
use crate::util::bit::{bit8, bit_at, bits8, bits_abs16, bits_abs8};

pub mod sweep;

verus! {

/// Whether the sequencer output is high at step `pos` of duty cycle `duty`
/// (one, two, four or six steps out of eight).
pub open spec fn duty_is_high(duty: int, pos: int) -> bool {
    if duty == 0 {
        pos == 1
    } else if duty == 1 {
        pos == 1 || pos == 2
    } else if duty == 2 {
        1 <= pos <= 4
    } else {
        !(pos == 1 || pos == 2)
    }
}

/// Computes `duty_is_high`.
pub fn sequence_bit(duty: usize, pos: usize) -> (high: bool)
    ensures
        high == duty_is_high(duty as int, pos as int),
{
    if duty == 0 {
        pos == 1
    } else if duty == 1 {
        pos == 1 || pos == 2
    } else if duty == 2 {
        1 <= pos && pos <= 4
    } else {
        !(pos == 1 || pos == 2)
    }
}

/// One pulse channel.
#[derive(Clone, Copy, Debug)]
pub struct Pulse {
    pub length: u8,
    pub clockrate: u32,
    pub duty: usize,
    pub enabled: bool,
    pub envelope: Envelope,
    pub halt: bool,
    pub mode: Mode,
    pub pos: usize,
    pub reload: u16,
    pub sweep: Sweep,
    pub timer: u16,
}

impl Pulse {
    /// Duty and step are in range, the period has eleven bits.
    pub open spec fn wf(self) -> bool {
        &&& self.duty <= 3
        &&& self.pos <= 7
        &&& self.reload <= 0x7FF
        &&& self.sweep.wf()
    }

    /// The channel's output level, 0 to 15.
    pub open spec fn level(self) -> u8 {
        if !self.enabled || self.sweep.mutes(self.reload) || self.length == 0 {
            0
        } else if duty_is_high(self.duty as int, self.pos as int) {
            self.envelope.level()
        } else {
            0
        }
    }

    /// The channel after a length clock.
    pub open spec fn after_dec_len(self) -> Self {
        if self.halt || self.length == 0 {
            self
        } else {
            Pulse { length: (self.length - 1) as u8, ..self }
        }
    }

    /// The channel after its enable bit was written.
    pub open spec fn after_enable(self, enabled: bool) -> Self {
        Pulse { enabled, length: if enabled { self.length } else { 0 }, ..self }
    }

    /// The channel after one timer clock.
    pub open spec fn after_tick(self) -> Self {
        let sweep = Sweep { target_period: self.sweep.target_for(self.reload), ..self.sweep };
        if self.timer == 0 {
            Pulse { sweep, timer: self.reload, pos: ((self.pos + 1) % 8) as usize, ..self }
        } else {
            Pulse { sweep, timer: (self.timer - 1) as u16, ..self }
        }
    }

    /// The channel after an envelope clock.
    pub open spec fn after_update_env(self) -> Self {
        Pulse { envelope: self.envelope.after_tick(), ..self }
    }

    /// The channel after a sweep clock.
    pub open spec fn after_update_sweep(self) -> Self {
        Pulse {
            reload: self.sweep.period_after_tock(self.reload),
            sweep: self.sweep.after_tock(self.reload),
            ..self
        }
    }

    /// The channel after `data` was written to its register `reg`.
    pub open spec fn after_write(self, reg: usize, data: u8) -> Self {
        if reg == 0 {
            Pulse {
                duty: (data / 64) as usize,
                halt: bit_at(data as int, 5),
                envelope: Envelope {
                    loop_flag: bit_at(data as int, 5),
                    constant: bit_at(data as int, 4),
                    period: data % 16,
                    reload: data % 16,
                    ..self.envelope
                },
                ..self
            }
        } else if reg == 1 {
            Pulse {
                sweep: Sweep {
                    enabled: bit_at(data as int, 7),
                    reload: ((data / 16) % 8 + 1) as u8,
                    negate: bit_at(data as int, 3),
                    shift: data % 8,
                    reload_flag: true,
                    ..self.sweep
                },
                ..self
            }
        } else if reg == 2 {
            Pulse { reload: (((self.reload / 256) % 8) * 256 + data) as u16, ..self }
        } else {
            Pulse {
                reload: (self.reload % 256 + (data % 8) * 256) as u16,
                length: if self.enabled {
                    length_value(data as int / 8)
                } else {
                    self.length
                },
                pos: 0,
                envelope: Envelope { start: true, ..self.envelope },
                ..self
            }
        }
    }

    /// A silent channel.
    pub fn new(mode: Mode, clockrate: u32) -> (p: Pulse)
        ensures
            p.wf(),
            p == (Pulse {
                length: 0,
                clockrate,
                duty: 0,
                enabled: false,
                envelope: p.envelope,
                halt: false,
                mode,
                pos: 0,
                reload: 0,
                sweep: p.sweep,
                timer: 0,
            }),
            p.envelope == (Envelope {
                constant: false,
                loop_flag: false,
                start: false,
                decay: 0,
                period: 0,
                reload: 0,
            }),
            p.sweep == (Sweep {
                enabled: false,
                negate: false,
                reload_flag: false,
                shift: 0,
                counter: 0,
                mode,
                reload: 0,
                target_period: 0,
            }),
    {
        Pulse {
            length: 0,
            clockrate,
            duty: 0,
            enabled: false,
            envelope: Envelope::new(),
            halt: false,
            mode,
            pos: 0,
            reload: 0,
            sweep: Sweep::new(mode),
            timer: 0,
        }
    }

    /// A length clock: the counter steps down unless halted or at zero.
    pub fn dec_len(&mut self)
        ensures
            *final(self) == old(self).after_dec_len(),
            old(self).wf() ==> final(self).wf(),
    {
        if self.halt {
            return ;
        }
        if self.length > 0 {
            self.length = self.length - 1;
        }
    }

    /// Switches the channel on or off; switching off empties the length counter.
    pub fn enable(&mut self, enabled: bool)
        ensures
            *final(self) == old(self).after_enable(enabled),
            old(self).wf() ==> final(self).wf(),
    {
        self.enabled = enabled;
        if !self.enabled {
            self.length = 0;
        }
    }

    /// The channel's output level, 0 to 15.
    pub fn output(&self) -> (v: u8)
        ensures
            v == self.level(),
    {
        if !self.enabled || self.sweep.muted(self.reload) || self.length == 0 {
            0
        } else if sequence_bit(self.duty, self.pos) {
            self.envelope.volume()
        } else {
            0
        }
    }

    /// One timer clock: at zero the timer reloads and the sequencer steps.
    pub fn tick(&mut self)
        requires
            old(self).wf(),
        ensures
            *final(self) == old(self).after_tick(),
            final(self).wf(),
    {
        self.sweep.tick(self.reload);
        if self.timer == 0 {
            self.timer = self.reload;
            self.pos = (self.pos + 1) % 8;
        } else {
            self.timer = self.timer - 1;
        }
    }

    /// An envelope clock.
    pub fn update_env(&mut self)
        ensures
            *final(self) == old(self).after_update_env(),
            old(self).wf() ==> final(self).wf(),
    {
        self.envelope.tick();
    }

    /// A sweep clock.
    pub fn update_sweep(&mut self)
        ensures
            *final(self) == old(self).after_update_sweep(),
            old(self).wf() ==> final(self).wf(),
    {
        self.reload = self.sweep.tock(self.reload);
    }

    /// Writes one of the channel's four registers: duty and envelope, sweep,
    /// timer low, or length index and timer high.
    pub fn write(&mut self, reg: usize, data: u8)
        requires
            reg <= 3,
        ensures
            *final(self) == old(self).after_write(reg, data),
            old(self).wf() ==> final(self).wf(),
    {
        if reg == 0 {
            let duty: usize = bits8(data, 6, 7) as usize;
            let halt: bool = bit8(data, 5);
            let constant: bool = bit8(data, 4);
            let period: u8 = bits_abs8(data, 0, 3);
            self.duty = duty;
            self.halt = halt;
            self.envelope.loop_flag = halt;
            self.envelope.constant = constant;
            self.envelope.set_period(period);
        } else if reg == 1 {
            let enabled: bool = bit8(data, 7);
            let period: u8 = bits8(data, 4, 6) + 1;
            let negate: bool = bit8(data, 3);
            let shift: u8 = bits_abs8(data, 0, 2);
            self.sweep.enabled = enabled;
            self.sweep.set_period(period);
            self.sweep.negate = negate;
            self.sweep.shift = shift;
            self.sweep.reload_flag = true;
        } else if reg == 2 {
            self.reload = bits_abs16(self.reload, 8, 10) + data as u16;
        } else {
            let len_idx: u8 = bits8(data, 3, 7);
            let timer_high: u16 = bits_abs8(data, 0, 2) as u16;
            self.reload = bits_abs16(self.reload, 0, 7) + timer_high * 256;
            if self.enabled {
                self.length = length_for(len_idx as usize);
            }
            self.pos = 0;
            self.envelope.start = true;
        }
    }
}

} // verus!
