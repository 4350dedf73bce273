//! The volume envelope of the pulse and noise channels.

use vstd::prelude::*;

verus! {

/// Either a constant volume or a level that decays from 15, clocked by a divider.
#[derive(Clone, Copy, Debug)]
pub struct Envelope {
    pub constant: bool,
    pub loop_flag: bool,
    pub start: bool,
    pub decay: u8,
    pub period: u8,
    pub reload: u8,
}

impl Envelope {
    /// The envelope after its divider was clocked without a pending start.
    pub open spec fn after_tock(self) -> Self {
        if self.period == 0 {
            Envelope {
                period: self.reload,
                decay: if self.decay > 0 {
                    (self.decay - 1) as u8
                } else if self.loop_flag {
                    15
                } else {
                    self.decay
                },
                ..self
            }
        } else {
            Envelope { period: (self.period - 1) as u8, ..self }
        }
    }

    /// The envelope after one envelope clock.
    pub open spec fn after_tick(self) -> Self {
        if self.start {
            Envelope { start: false, decay: 15, period: self.reload, ..self }
        } else {
            self.after_tock()
        }
    }

    /// The volume the channel plays at.
    pub open spec fn level(self) -> u8 {
        if self.constant {
            self.reload
        } else {
            self.decay
        }
    }

    /// A silent envelope.
    pub fn new() -> (e: Envelope)
        ensures
            e == (Envelope {
                constant: false,
                loop_flag: false,
                start: false,
                decay: 0,
                period: 0,
                reload: 0,
            }),
    {
        Envelope { constant: false, loop_flag: false, start: false, decay: 0, period: 0, reload: 0 }
    }

    /// Sets the divider period, which is also the constant volume.
    pub fn set_period(&mut self, period: u8)
        ensures
            *final(self) == (Envelope { period, reload: period, ..*old(self) }),
    {
        self.period = period;
        self.reload = period;
    }

    /// One envelope clock: a pending start reloads, otherwise the divider counts.
    pub fn tick(&mut self)
        ensures
            *final(self) == old(self).after_tick(),
    {
        if self.start {
            self.start = false;
            self.decay = 15;
            self.period = self.reload;
        } else {
            self.tock();
        }
    }

    /// Clocks the divider; when it expires the decay level steps down, or
    /// wraps to 15 when looping.
    pub fn tock(&mut self)
        ensures
            *final(self) == old(self).after_tock(),
    {
        if self.period == 0 {
            self.period = self.reload;
            if self.decay > 0 {
                self.decay = self.decay - 1;
            } else if self.loop_flag {
                self.decay = 15;
            }
        } else {
            self.period = self.period - 1;
        }
    }

    /// The volume the channel plays at.
    pub fn volume(&self) -> (v: u8)
        ensures
            v == self.level(),
    {
        if self.constant {
            self.reload
        } else {
            self.decay
        }
    }
}

} // verus!
