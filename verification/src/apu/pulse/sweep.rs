//! The sweep unit that bends the period of a pulse channel.

use vstd::prelude::*;
use crate::util::bit::pow2;

verus! {

/// How a negated change is subtracted: the first pulse channel subtracts one more.
#[derive(Clone, Copy, Debug, PartialEq, Eq, Structural)]
pub enum Mode {
    OnesComplement,
    TwosComplement,
}

/// The sweep unit of one pulse channel.
#[derive(Clone, Copy, Debug)]
pub struct Sweep {
    pub enabled: bool,
    pub negate: bool,
    pub reload_flag: bool,
    pub shift: u8,
    pub counter: u8,
    pub mode: Mode,
    pub reload: u8,
    pub target_period: u16,
}

impl Sweep {
    /// The shift count has three bits.
    pub open spec fn wf(self) -> bool {
        self.shift <= 7
    }

    /// The period the sweep aims at from `cur_period`, modulo 65536.
    pub open spec fn target_for(self, cur_period: u16) -> u16 {
        let change = cur_period as int / pow2(self.shift as int);
        if self.negate {
            let change = match self.mode {
                Mode::OnesComplement => change + 1,
                Mode::TwosComplement => change,
            };
            ((cur_period + 0x1_0000 - change) % 0x1_0000) as u16
        } else {
            ((cur_period + change) % 0x1_0000) as u16
        }
    }

    /// Whether the sweep silences a channel whose period is `cur_period`.
    pub open spec fn mutes(self, cur_period: u16) -> bool {
        cur_period < 8 || (!self.negate && self.target_period > 0x7FF)
    }

    /// The unit after a length-and-sweep clock.
    pub open spec fn after_tock(self, cur_period: u16) -> Self {
        let counter: u8 = if self.counter >= 1 {
            (self.counter - 1) as u8
        } else {
            0
        };
        Sweep {
            counter: if counter == 0 || self.reload_flag {
                self.reload
            } else {
                counter
            },
            reload_flag: false,
            ..self
        }
    }

    /// The period of the channel after a length-and-sweep clock.
    pub open spec fn period_after_tock(self, cur_period: u16) -> u16 {
        if self.counter <= 1 && self.shift > 0 && self.enabled && cur_period >= 8
            && self.target_period <= 0x7FF {
            self.target_period
        } else {
            cur_period
        }
    }

    /// A disabled sweep unit of the given kind.
    pub fn new(mode: Mode) -> (s: Sweep)
        ensures
            s == (Sweep {
                enabled: false,
                negate: false,
                reload_flag: false,
                shift: 0,
                counter: 0,
                mode,
                reload: 0,
                target_period: 0,
            }),
    {
        Sweep {
            enabled: false,
            negate: false,
            reload_flag: false,
            shift: 0,
            counter: 0,
            mode,
            reload: 0,
            target_period: 0,
        }
    }

    /// Recomputes the target period from the channel's current period.
    pub fn calculate_target_period(&mut self, cur_period: u16)
        requires
            old(self).wf(),
        ensures
            *final(self) == (Sweep { target_period: old(self).target_for(cur_period), ..*old(self) }),
    {
        let divisor: u32 = crate::util::bit::power_of_two(self.shift as usize);
        let change_amount: u32 = (cur_period as u32) / divisor;
        self.target_period = if self.negate {
            let change_amount: u32 = match self.mode {
                Mode::OnesComplement => change_amount + 1,
                Mode::TwosComplement => change_amount,
            };
            (((cur_period as u32) + 0x1_0000 - change_amount) % 0x1_0000) as u16
        } else {
            (((cur_period as u32) + change_amount) % 0x1_0000) as u16
        };
    }

    /// Whether the sweep silences a channel whose period is `cur_period`.
    pub fn muted(&self, cur_period: u16) -> (m: bool)
        ensures
            m == self.mutes(cur_period),
    {
        cur_period < 8 || (!self.negate && self.target_period > 0x7FF)
    }

    /// Sets the divider period.
    pub fn set_period(&mut self, period: u8)
        ensures
            *final(self) == (Sweep { reload: period, ..*old(self) }),
    {
        self.reload = period;
    }

    /// One timer clock: the target period follows the current period.
    pub fn tick(&mut self, cur_period: u16)
        requires
            old(self).wf(),
        ensures
            *final(self) == (Sweep { target_period: old(self).target_for(cur_period), ..*old(self) }),
    {
        self.calculate_target_period(cur_period);
    }

    /// One length-and-sweep clock.  When the divider runs out on an enabled
    /// unit with a shift and an audible target, the channel takes the target
    /// period; the divider restarts when it ran out or a reload is pending.
    pub fn tock(&mut self, cur_period: u16) -> (period: u16)
        ensures
            *final(self) == old(self).after_tock(cur_period),
            period == old(self).period_after_tock(cur_period),
    {
        self.counter = if self.counter >= 1 {
            self.counter - 1
        } else {
            0
        };
        let mut target_period: u16 = cur_period;
        if self.counter == 0 {
            if self.shift > 0 && self.enabled && cur_period >= 8 && self.target_period <= 0x7FF {
                target_period = self.target_period;
            }
            self.counter = self.reload;
        }
        if self.reload_flag {
            self.counter = self.reload;
            self.reload_flag = false;
        }
        target_period
    }
}

/// A sweep that adds to the period silences the channel exactly when the
/// period is below 8 or the target lies above 0x7FF.
pub proof fn lemma_muting(s: Sweep, cur_period: u16)
    requires
        !s.negate,
    ensures
        s.mutes(cur_period) <==> (cur_period < 8 || s.target_period > 0x7FF),
{
}

/// With a freshly computed target, an adding sweep on an 11-bit period mutes
/// exactly when the period is below 8 or period plus shifted period passes 0x7FF.
pub proof fn lemma_muting_of_fresh_target(s: Sweep, cur_period: u16)
    requires
        s.wf(),
        !s.negate,
        cur_period <= 0x7FF,
    ensures
        (Sweep { target_period: s.target_for(cur_period), ..s }).mutes(cur_period) <==> (
        cur_period < 8 || cur_period + cur_period as int / pow2(s.shift as int) > 0x7FF),
{
    let change = cur_period as int / pow2(s.shift as int);
    assert(0 <= change <= cur_period) by (nonlinear_arith)
        requires
            change == cur_period as int / pow2(s.shift as int),
            pow2(s.shift as int) >= 1,
            cur_period >= 0,
    ;
}

/// A muted channel keeps its period over a length-and-sweep clock.
pub proof fn lemma_muted_sweep_keeps_period(s: Sweep, cur_period: u16)
    requires
        s.mutes(cur_period),
        !s.negate,
    ensures
        s.period_after_tock(cur_period) == cur_period,
{
}

} // verus!
