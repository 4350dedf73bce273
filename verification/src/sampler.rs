//! The pace at which sound samples are taken: one sample each time the
//! processor clock has advanced by one period of the sample rate.

use vstd::prelude::*;

verus! {

/// Samples per second handed to the sound output.
pub const SAMPLERATE: u32 = 44100;

/// Counts processor cycles against the sample rate.
#[derive(Clone, Copy, Debug)]
pub struct Sampler {
    pub clockrate: u32,
    pub counter: u32,
}

impl Sampler {
    /// The clock runs, and the counter stays below the clock rate.
    pub open spec fn wf(self) -> bool {
        self.clockrate > 0 && self.counter < self.clockrate
    }

    /// Whether the next processor cycle completes a sample period.
    pub open spec fn due(self) -> bool {
        self.counter + SAMPLERATE > self.clockrate
    }

    /// The sampler after one processor cycle.
    pub open spec fn after_cycle(self) -> Sampler {
        Sampler { counter: ((self.counter + SAMPLERATE) % (self.clockrate as int)) as u32, ..self }
    }

    /// The sampler after `n` processor cycles.
    pub open spec fn after_cycles(self, n: nat) -> Sampler
        decreases n,
    {
        if n == 0 {
            self
        } else {
            self.after_cycles((n - 1) as nat).after_cycle()
        }
    }

    /// A sampler for a processor clock of `clockrate` cycles per second.
    pub fn new(clockrate: u32) -> (s: Sampler)
        requires
            clockrate > 0,
        ensures
            s.wf(),
            s.clockrate == clockrate,
            s.counter == 0,
    {
        Sampler { clockrate, counter: 0 }
    }

    /// Counts one processor cycle; tells whether a sample is due.
    pub fn cycle(&mut self) -> (sample: bool)
        requires
            old(self).wf(),
        ensures
            sample == old(self).due(),
            *final(self) == old(self).after_cycle(),
            final(self).wf(),
    {
        let sum: u64 = self.counter as u64 + SAMPLERATE as u64;
        let sample: bool = sum > self.clockrate as u64;
        self.counter = (sum % (self.clockrate as u64)) as u32;
        sample
    }

    /// Changes the clock rate; the count starts over.
    pub fn _set_clockrate(&mut self, clockrate: u32)
        requires
            clockrate > 0,
        ensures
            final(self).clockrate == clockrate,
            final(self).counter == 0,
            final(self).wf(),
    {
        self.clockrate = clockrate;
        self.counter = 0;
    }
}

/// The counter is the number of sample periods begun, times the sample
/// rate, taken modulo the clock rate: after `n` cycles from zero it holds
/// `n * 44100 mod clockrate`.
pub proof fn lemma_counter_is_phase(s: Sampler, n: nat)
    requires
        s.wf(),
        s.counter == 0,
    ensures
        s.after_cycles(n).counter == (n * SAMPLERATE) % (s.clockrate as int),
        s.after_cycles(n).clockrate == s.clockrate,
    decreases n,
{
    if n > 0 {
        lemma_counter_is_phase(s, (n - 1) as nat);
        let c = s.clockrate as int;
        let a = ((n - 1) * SAMPLERATE) as int;
        assert(n * SAMPLERATE == a + SAMPLERATE) by (nonlinear_arith)
            requires
                a == (n - 1) * SAMPLERATE,
        ;
        vstd::arithmetic::div_mod::lemma_add_mod_noop_right(SAMPLERATE as int, a, c);
    }
}

} // verus!
