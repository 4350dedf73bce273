//! The delta-modulation channel, which plays one-bit samples fetched from
//! program memory.

use vstd::prelude::*;
use crate::util::bit::{bit8, bit_at, bits_abs8};

verus! {

/// Timer periods in processor cycles by the four-bit rate index.
pub const RATES: [u16; 16] = [
    428, 380, 340, 320, 286, 254, 226, 214, 190, 160, 142, 128, 106, 84, 72, 54,
];

/// The delta-modulation channel.
#[derive(Clone, Copy, Debug)]
pub struct Dmc {
    pub addr: u16,
    pub irq: bool,
    pub length: u16,
    pub addr_reload: u16,
    pub bits_remaining: u8,
    pub enabled: bool,
    pub irq_enabled: bool,
    pub length_reload: u16,
    pub loop_flag: bool,
    pub output: u8,
    pub sample_buf: Option<u8>,
    pub timer: u16,
    pub timer_reload: u16,
}

impl Dmc {
    /// Whether the channel asks the processor bus for the next sample byte.
    pub open spec fn wants_sample(self) -> bool {
        self.sample_buf is None && self.length > 0
    }

    /// The channel after its enable bit was written.
    pub open spec fn after_enable(self, enabled: bool) -> Self {
        Dmc { enabled, length: if enabled { self.length } else { 0 }, ..self }
    }

    /// The channel after the byte `data` arrived from the bus: the pointer
    /// moves on, wrapping from 0xFFFF to 0x8000, and one byte less remains;
    /// at the end a looping sample restarts, otherwise an enabled interrupt latches.
    pub open spec fn after_fill_buffer(self, data: u8) -> Self {
        let addr: u16 = if self.addr == 0xFFFF {
            0x8000
        } else {
            (self.addr + 1) as u16
        };
        let length: u16 = (self.length - 1) as u16;
        if length == 0 && self.loop_flag {
            Dmc {
                sample_buf: Some(data),
                addr: self.addr_reload,
                length: self.length_reload,
                ..self
            }
        } else {
            Dmc {
                sample_buf: Some(data),
                addr,
                length,
                irq: self.irq || (length == 0 && self.irq_enabled),
                ..self
            }
        }
    }

    /// The output level after one delta bit: up by 2 unless that passes 127,
    /// down by 2 but not below 0.
    pub open spec fn level_after_bit(output: u8, up: bool) -> u8 {
        if up {
            if output <= 125 {
                (output + 2) as u8
            } else {
                output
            }
        } else if output >= 2 {
            (output - 2) as u8
        } else {
            0
        }
    }

    /// The channel after one timer clock.
    pub open spec fn after_tick(self) -> Self {
        let timer: u16 = if self.enabled {
            if self.timer == 0 {
                self.timer_reload
            } else {
                (self.timer - 1) as u16
            }
        } else {
            self.timer
        };
        if timer != 0 {
            Dmc { timer, ..self }
        } else {
            let refill = self.bits_remaining == 0;
            let bits: u8 = if refill {
                8
            } else {
                self.bits_remaining
            };
            let enabled = if refill {
                self.sample_buf is Some
            } else {
                self.enabled
            };
            let playing = enabled && self.sample_buf is Some;
            let output: u8 = if playing {
                Self::level_after_bit(self.output, self.sample_buf->0 % 2 == 1)
            } else {
                self.output
            };
            let shifted: Option<u8> = if playing {
                Some(self.sample_buf->0 / 2)
            } else {
                self.sample_buf
            };
            Dmc {
                timer,
                enabled,
                output,
                bits_remaining: (bits - 1) as u8,
                sample_buf: if bits == 1 {
                    None
                } else {
                    shifted
                },
                ..self
            }
        }
    }

    /// The channel after `data` was written to its register `reg`.
    pub open spec fn after_write(self, reg: usize, data: u8) -> Self {
        if reg == 0 {
            Dmc {
                irq_enabled: bit_at(data as int, 7),
                loop_flag: bit_at(data as int, 6),
                timer_reload: RATES[data as int % 16] / 2,
                ..self
            }
        } else if reg == 1 {
            Dmc { output: data % 128, ..self }
        } else if reg == 2 {
            Dmc {
                addr: (0xC000 + data * 64) as u16,
                addr_reload: (0xC000 + data * 64) as u16,
                ..self
            }
        } else {
            Dmc { length: (data * 16 + 1) as u16, length_reload: (data * 16 + 1) as u16, ..self }
        }
    }

    /// The channel after `n` timer clocks.
    pub open spec fn after_ticks(self, n: nat) -> Self
        decreases n,
    {
        if n == 0 {
            self
        } else {
            self.after_ticks((n - 1) as nat).after_tick()
        }
    }

    /// A silent channel.
    pub fn new() -> (d: Dmc)
        ensures
            d == (Dmc {
                addr: 0,
                irq: false,
                length: 0,
                addr_reload: 0,
                bits_remaining: 0,
                enabled: false,
                irq_enabled: false,
                length_reload: 0,
                loop_flag: false,
                output: 0,
                sample_buf: None,
                timer: 0,
                timer_reload: 0,
            }),
    {
        Dmc {
            addr: 0,
            irq: false,
            length: 0,
            addr_reload: 0,
            bits_remaining: 0,
            enabled: false,
            irq_enabled: false,
            length_reload: 0,
            loop_flag: false,
            output: 0,
            sample_buf: None,
            timer: 0,
            timer_reload: 0,
        }
    }

    /// Whether the channel asks the processor bus for the next sample byte.
    pub fn buffer_should_be_filled(&self) -> (wanted: bool)
        ensures
            wanted == self.wants_sample(),
    {
        self.sample_buf.is_none() && self.length > 0
    }

    /// Switches the channel on or off; switching off drops the rest of the sample.
    pub fn enable(&mut self, enabled: bool)
        ensures
            *final(self) == old(self).after_enable(enabled),
    {
        self.enabled = enabled;
        if !self.enabled {
            self.length = 0;
        }
    }

    /// Takes the sample byte that the bus delivered.
    pub fn fill_buffer(&mut self, data: u8)
        requires
            old(self).length > 0,
        ensures
            *final(self) == old(self).after_fill_buffer(data),
    {
        self.sample_buf = Some(data);
        if self.addr == 0xFFFF {
            self.addr = 0x8000;
        } else {
            self.addr = self.addr + 1;
        }
        self.length = self.length - 1;
        if self.length == 0 {
            if self.loop_flag {
                self.addr = self.addr_reload;
                self.length = self.length_reload;
            } else if self.irq_enabled {
                self.irq = true;
            }
        }
    }

    /// The channel's output level, 0 to 127.
    pub fn output(&self) -> (v: u8)
        ensures
            v == self.output,
    {
        self.output
    }

    /// One timer clock.  When the timer is at zero afterwards, one bit of the
    /// sample buffer moves the output level; after eight bits the buffer is empty.
    pub fn tick(&mut self)
        ensures
            *final(self) == old(self).after_tick(),
    {
        if self.enabled {
            if self.timer == 0 {
                self.timer = self.timer_reload;
            } else {
                self.timer = self.timer - 1;
            }
        }
        if self.timer == 0 {
            if self.bits_remaining == 0 {
                self.bits_remaining = 8;
                self.enabled = self.sample_buf.is_some();
            }
            if self.enabled {
                if let Some(sample_buf) = self.sample_buf {
                    let delta: bool = bit8(sample_buf, 0);
                    if delta {
                        if self.output <= 125 {
                            self.output = self.output + 2;
                        }
                    } else if self.output >= 2 {
                        self.output = self.output - 2;
                    } else {
                        self.output = 0;
                    }
                    self.sample_buf = Some(sample_buf / 2);
                }
            }
            self.bits_remaining = self.bits_remaining - 1;
            if self.bits_remaining == 0 {
                self.sample_buf = None;
            }
        }
    }

    /// Writes register 0 (flags and rate), 1 (output level), 2 (sample
    /// address) or 3 (sample length).
    pub fn write(&mut self, reg: usize, data: u8)
        requires
            reg <= 3,
        ensures
            *final(self) == old(self).after_write(reg, data),
    {
        if reg == 0 {
            let irq_enabled: bool = bit8(data, 7);
            let loop_flag: bool = bit8(data, 6);
            let rate_idx: usize = bits_abs8(data, 0, 3) as usize;
            self.irq_enabled = irq_enabled;
            self.loop_flag = loop_flag;
            self.timer_reload = RATES[rate_idx] / 2;
        } else if reg == 1 {
            let load: u8 = bits_abs8(data, 0, 6);
            self.output = load;
        } else if reg == 2 {
            let address: u16 = 0xC000 + (data as u16) * 64;
            self.addr = address;
            self.addr_reload = address;
        } else {
            let length: u16 = (data as u16) * 16 + 1;
            self.length = length;
            self.length_reload = length;
        }
    }
}

/// When the last byte of a looping sample arrives, the sample restarts at its
/// first address with its full length, and no interrupt is raised.
pub proof fn lemma_loop_restarts(d: Dmc, data: u8)
    requires
        d.length == 1,
        d.loop_flag,
    ensures
        d.after_fill_buffer(data).addr == d.addr_reload,
        d.after_fill_buffer(data).length == d.length_reload,
        d.after_fill_buffer(data).irq == d.irq,
{
}

/// Timer clocks touch neither the interrupt latch nor the bytes that remain.
pub proof fn lemma_ticks_keep_latch(d: Dmc, n: nat)
    ensures
        d.after_ticks(n).irq == d.irq,
        d.after_ticks(n).length == d.length,
    decreases n,
{
    if n > 0 {
        lemma_ticks_keep_latch(d, (n - 1) as nat);
    }
}

/// When the last byte of a sample that does not loop arrives with the
/// interrupt enabled, the interrupt latches; it then stays latched over any
/// number of timer clocks, during which no further byte is asked for, until
/// the status register is written (see `Apu::write`).
pub proof fn lemma_interrupt_latches_once(d: Dmc, data: u8, n: nat)
    requires
        d.length == 1,
        !d.loop_flag,
        d.irq_enabled,
    ensures
        d.after_fill_buffer(data).irq,
        d.after_fill_buffer(data).after_ticks(n).irq,
        !d.after_fill_buffer(data).after_ticks(n).wants_sample(),
{
    lemma_ticks_keep_latch(d.after_fill_buffer(data), n);
}

/// Before the last byte, a fetch never raises the interrupt nor restarts the sample.
pub proof fn lemma_fetch_before_end(d: Dmc, data: u8)
    requires
        d.length > 1,
    ensures
        d.after_fill_buffer(data).irq == d.irq,
        d.after_fill_buffer(data).length == d.length - 1,
        d.after_fill_buffer(data).addr == if d.addr == 0xFFFF {
            0x8000
        } else {
            d.addr + 1
        },
{
}

} // verus!
