//! The triangle channel.

use vstd::prelude::*;
use crate::apu::{length_for, length_value};
use crate::util::bit::{bit8, bit_at, bits8, bits_abs16, bits_abs8};

verus! {

/// The level at step `pos` of the 32-step ramp 15 down to 0 and back up to 15.
pub open spec fn ramp(pos: int) -> u8 {
    if pos < 16 {
        (15 - pos) as u8
    } else {
        (pos - 16) as u8
    }
}

/// The triangle channel.
#[derive(Clone, Copy, Debug)]
pub struct Triangle {
    pub length: u8,
    pub clockrate: u32,
    pub enabled: bool,
    pub halt: bool,
    pub linear_counter: u8,
    pub linear_counter_reload: u8,
    pub pos: usize,
    pub reload_flag: bool,
    pub timer: u16,
    pub timer_reload: u16,
}

impl Triangle {
    /// The step lies on the ramp, the period has eleven bits.
    pub open spec fn wf(self) -> bool {
        self.pos <= 31 && self.timer_reload <= 0x7FF
    }

    /// The channel's output level, 0 to 15; a period below 2 is silenced.
    pub open spec fn level(self) -> u8 {
        if self.timer_reload < 2 {
            0
        } else {
            ramp(self.pos as int)
        }
    }

    /// The channel after a length clock.
    pub open spec fn after_dec_len(self) -> Self {
        if self.halt || self.length == 0 {
            self
        } else {
            Triangle { length: (self.length - 1) as u8, ..self }
        }
    }

    /// The channel after a linear-counter clock.
    pub open spec fn after_dec_lin(self) -> Self {
        Triangle {
            linear_counter: if self.reload_flag {
                self.linear_counter_reload
            } else if self.linear_counter > 0 {
                (self.linear_counter - 1) as u8
            } else {
                self.linear_counter
            },
            reload_flag: self.reload_flag && self.halt,
            ..self
        }
    }

    /// The channel after its enable bit was written.
    pub open spec fn after_enable(self, enabled: bool) -> Self {
        Triangle { enabled, length: if enabled { self.length } else { 0 }, ..self }
    }

    /// The channel after one timer clock.
    pub open spec fn after_tick(self) -> Self {
        if !self.enabled || self.linear_counter == 0 || self.length == 0 {
            self
        } else if self.timer == 0 {
            Triangle { timer: self.timer_reload, pos: ((self.pos + 1) % 32) as usize, ..self }
        } else {
            Triangle { timer: (self.timer - 1) as u16, ..self }
        }
    }

    /// The channel after `data` was written to its register `reg`.
    pub open spec fn after_write(self, reg: usize, data: u8) -> Self {
        if reg == 0 {
            Triangle {
                halt: bit_at(data as int, 7),
                linear_counter: data % 128,
                linear_counter_reload: data % 128,
                ..self
            }
        } else if reg == 2 {
            Triangle { timer_reload: (((self.timer_reload / 256) % 8) * 256 + data) as u16, ..self }
        } else {
            Triangle {
                timer_reload: (self.timer_reload % 256 + (data % 8) * 256) as u16,
                length: if self.enabled {
                    length_value(data as int / 8)
                } else {
                    self.length
                },
                reload_flag: true,
                ..self
            }
        }
    }

    /// A silent channel.
    pub fn new(clockrate: u32) -> (t: Triangle)
        ensures
            t.wf(),
            t == (Triangle {
                length: 0,
                clockrate,
                enabled: false,
                halt: false,
                linear_counter: 0,
                linear_counter_reload: 0,
                pos: 0,
                reload_flag: false,
                timer: 0,
                timer_reload: 0,
            }),
    {
        Triangle {
            length: 0,
            clockrate,
            enabled: false,
            halt: false,
            linear_counter: 0,
            linear_counter_reload: 0,
            pos: 0,
            reload_flag: false,
            timer: 0,
            timer_reload: 0,
        }
    }

    /// A length clock: the counter steps down unless halted or at zero.
    pub fn dec_len(&mut self)
        ensures
            *final(self) == old(self).after_dec_len(),
            old(self).wf() ==> final(self).wf(),
    {
        if self.halt {
            return ;
        }
        if self.length > 0 {
            self.length = self.length - 1;
        }
    }

    /// A linear-counter clock: reload when flagged, else count down; the flag
    /// falls unless the control bit holds it.
    pub fn dec_lin(&mut self)
        ensures
            *final(self) == old(self).after_dec_lin(),
            old(self).wf() ==> final(self).wf(),
    {
        if self.reload_flag {
            self.linear_counter = self.linear_counter_reload;
        } else if self.linear_counter > 0 {
            self.linear_counter = self.linear_counter - 1;
        }
        if !self.halt {
            self.reload_flag = false;
        }
    }

    /// Switches the channel on or off; switching off empties the length counter.
    pub fn enable(&mut self, enabled: bool)
        ensures
            *final(self) == old(self).after_enable(enabled),
            old(self).wf() ==> final(self).wf(),
    {
        self.enabled = enabled;
        if !self.enabled {
            self.length = 0;
        }
    }

    /// The channel's output level, 0 to 15.
    pub fn output(&self) -> (v: u8)
        requires
            self.wf(),
        ensures
            v == self.level(),
    {
        if self.timer_reload < 2 {
            0
        } else if self.pos < 16 {
            (15 - self.pos) as u8
        } else {
            (self.pos - 16) as u8
        }
    }

    /// One timer clock; the sequencer only runs while both counters are non-zero.
    pub fn tick(&mut self)
        requires
            old(self).wf(),
        ensures
            *final(self) == old(self).after_tick(),
            final(self).wf(),
    {
        if !self.enabled || self.linear_counter == 0 || self.length == 0 {
            return ;
        }
        if self.timer == 0 {
            self.timer = self.timer_reload;
            self.pos = (self.pos + 1) % 32;
        } else {
            self.timer = self.timer - 1;
        }
    }

    /// Writes register 0 (control and linear counter), 2 (timer low) or 3
    /// (length index and timer high).
    pub fn write(&mut self, reg: usize, data: u8)
        requires
            reg == 0 || reg == 2 || reg == 3,
        ensures
            *final(self) == old(self).after_write(reg, data),
            old(self).wf() ==> final(self).wf(),
    {
        if reg == 0 {
            let halt: bool = bit8(data, 7);
            let linear_counter: u8 = bits_abs8(data, 0, 6);
            self.halt = halt;
            self.linear_counter = linear_counter;
            self.linear_counter_reload = linear_counter;
        } else if reg == 2 {
            self.timer_reload = bits_abs16(self.timer_reload, 8, 10) + data as u16;
        } else {
            let timer_high: u16 = bits_abs8(data, 0, 2) as u16;
            self.timer_reload = bits_abs16(self.timer_reload, 0, 7) + timer_high * 256;
            let len_idx: u8 = bits8(data, 3, 7);
            if self.enabled {
                self.length = length_for(len_idx as usize);
            }
            self.reload_flag = true;
        }
    }
}

} // verus!
