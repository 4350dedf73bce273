//! The noise channel.

use vstd::prelude::*;
use crate::apu::envelope::Envelope;
use crate::apu::noise::lfsr::{stepped, Lfsr};
use crate::apu::{length_for, length_value};
use crate::util::bit::{bit8, bit_at, bits8, bits_abs8};

pub mod lfsr;
pub mod order;
pub mod period;

verus! {

/// Timer periods by the four-bit index written to the channel.
pub open spec fn period_value(idx: int) -> u16 {
    if idx == 0 {
        4
    } else if idx == 1 {
        8
    } else if idx == 2 {
        16
    } else if idx == 3 {
        32
    } else if idx == 4 {
        64
    } else if idx == 5 {
        96
    } else if idx == 6 {
        128
    } else if idx == 7 {
        160
    } else if idx == 8 {
        202
    } else if idx == 9 {
        254
    } else if idx == 10 {
        380
    } else if idx == 11 {
        508
    } else if idx == 12 {
        762
    } else if idx == 13 {
        1016
    } else if idx == 14 {
        2034
    } else {
        4068
    }
}

/// Computes `period_value`.
pub fn period_for(idx: usize) -> (p: u16)
    ensures
        p == period_value(idx as int),
{
    if idx == 0 {
        4
    } else if idx == 1 {
        8
    } else if idx == 2 {
        16
    } else if idx == 3 {
        32
    } else if idx == 4 {
        64
    } else if idx == 5 {
        96
    } else if idx == 6 {
        128
    } else if idx == 7 {
        160
    } else if idx == 8 {
        202
    } else if idx == 9 {
        254
    } else if idx == 10 {
        380
    } else if idx == 11 {
        508
    } else if idx == 12 {
        762
    } else if idx == 13 {
        1016
    } else if idx == 14 {
        2034
    } else {
        4068
    }
}

/// The noise channel.
#[derive(Clone, Copy, Debug)]
pub struct Noise {
    pub length: u8,
    pub enabled: bool,
    pub envelope: Envelope,
    pub halt: bool,
    pub lfsr: Lfsr,
    pub mode: bool,
    pub reload: u16,
    pub timer: u16,
}

impl Noise {
    /// The channel's output level, 0 to 15; silent while bit 0 of the shift
    /// register is set or the length counter is empty.
    pub open spec fn level(self) -> u8 {
        if !self.enabled || self.lfsr.data & 1 == 1 || self.length == 0 {
            0
        } else {
            self.envelope.level()
        }
    }

    /// The channel after a length clock.
    pub open spec fn after_dec_len(self) -> Self {
        if self.halt || self.length == 0 {
            self
        } else {
            Noise { length: (self.length - 1) as u8, ..self }
        }
    }

    /// The channel after its enable bit was written.
    pub open spec fn after_enable(self, enabled: bool) -> Self {
        Noise { enabled, length: if enabled { self.length } else { 0 }, ..self }
    }

    /// The channel after one timer clock.
    pub open spec fn after_tick(self) -> Self {
        if self.timer == 0 {
            Noise {
                timer: self.reload,
                lfsr: Lfsr { data: stepped(self.lfsr.data, self.mode) },
                ..self
            }
        } else {
            Noise { timer: (self.timer - 1) as u16, ..self }
        }
    }

    /// The channel after an envelope clock.
    pub open spec fn after_update_env(self) -> Self {
        Noise { envelope: self.envelope.after_tick(), ..self }
    }

    /// The channel after `data` was written to its register `reg`.
    pub open spec fn after_write(self, reg: usize, data: u8) -> Self {
        if reg == 0 {
            Noise {
                halt: bit_at(data as int, 5),
                envelope: Envelope {
                    loop_flag: bit_at(data as int, 5),
                    constant: bit_at(data as int, 4),
                    period: data % 16,
                    reload: data % 16,
                    ..self.envelope
                },
                ..self
            }
        } else if reg == 2 {
            Noise { mode: bit_at(data as int, 7), reload: period_value(data as int % 16), ..self }
        } else {
            Noise {
                length: if self.enabled {
                    length_value(data as int / 8)
                } else {
                    self.length
                },
                envelope: Envelope { start: true, ..self.envelope },
                ..self
            }
        }
    }

    /// A silent channel whose shift register holds 1.
    pub fn new() -> (n: Noise)
        ensures
            n == (Noise {
                length: 0,
                enabled: false,
                envelope: n.envelope,
                halt: false,
                lfsr: Lfsr { data: 1 },
                mode: false,
                reload: 0,
                timer: 0,
            }),
            n.envelope == (Envelope {
                constant: false,
                loop_flag: false,
                start: false,
                decay: 0,
                period: 0,
                reload: 0,
            }),
    {
        Noise {
            length: 0,
            enabled: false,
            envelope: Envelope::new(),
            halt: false,
            lfsr: Lfsr::new(),
            mode: false,
            reload: 0,
            timer: 0,
        }
    }

    /// A length clock: the counter steps down unless halted or at zero.
    pub fn dec_len(&mut self)
        ensures
            *final(self) == old(self).after_dec_len(),
    {
        if self.halt {
            return ;
        }
        if self.length > 0 {
            self.length = self.length - 1;
        }
    }

    /// Switches the channel on or off; switching off empties the length counter.
    pub fn enable(&mut self, enabled: bool)
        ensures
            *final(self) == old(self).after_enable(enabled),
    {
        self.enabled = enabled;
        if !self.enabled {
            self.length = 0;
        }
    }

    /// The channel's output level, 0 to 15.
    pub fn output(&self) -> (v: u8)
        ensures
            v == self.level(),
    {
        if !self.enabled || self.lfsr.output() || self.length == 0 {
            0
        } else {
            self.envelope.volume()
        }
    }

    /// One timer clock: at zero the timer reloads and the shift register steps.
    pub fn tick(&mut self)
        ensures
            *final(self) == old(self).after_tick(),
    {
        if self.timer == 0 {
            self.timer = self.reload;
            self.lfsr.tick(self.mode);
        } else {
            self.timer = self.timer - 1;
        }
    }

    /// An envelope clock.
    pub fn update_env(&mut self)
        ensures
            *final(self) == old(self).after_update_env(),
    {
        self.envelope.tick();
    }

    /// Writes register 0 (envelope), 2 (mode and period) or 3 (length index).
    pub fn write(&mut self, reg: usize, data: u8)
        requires
            reg == 0 || reg == 2 || reg == 3,
        ensures
            *final(self) == old(self).after_write(reg, data),
    {
        if reg == 0 {
            let halt: bool = bit8(data, 5);
            let constant: bool = bit8(data, 4);
            let period: u8 = bits_abs8(data, 0, 3);
            self.halt = halt;
            self.envelope.loop_flag = halt;
            self.envelope.constant = constant;
            self.envelope.set_period(period);
        } else if reg == 2 {
            let mode: bool = bit8(data, 7);
            let reload_idx: u8 = bits_abs8(data, 0, 3);
            self.mode = mode;
            self.reload = period_for(reload_idx as usize);
        } else {
            let len_idx: u8 = bits8(data, 3, 7);
            if self.enabled {
                self.length = length_for(len_idx as usize);
            }
            self.envelope.start = true;
        }
    }
}

} // verus!
