//! The part of the scanline-counting mapper that lives on the picture bus:
//! its character bank registers and its interrupt counter.

use vstd::prelude::*;

verus! {

/// The scanline interrupt counter.
#[derive(Clone, Copy, Debug)]
pub struct Irq {
    pub counter: u8,
    pub enabled: bool,
    pub occurred: bool,
    pub reload: u8,
    pub old_counter: u8,
    pub filter: usize,
}

impl Irq {
    /// The value the counter takes on a clock: the latch from zero, else one less.
    pub open spec fn next_counter(self) -> u8 {
        if self.counter == 0 {
            self.reload
        } else {
            (self.counter - 1) as u8
        }
    }

    /// Whether a clock raises the interrupt: the counter arrives at zero
    /// while the interrupt is enabled.
    pub open spec fn asserts_on_clock(self) -> bool {
        self.next_counter() == 0 && self.enabled
    }

    /// The counter after one clock.
    pub open spec fn after_clock(self) -> Self {
        Irq {
            old_counter: self.counter,
            counter: self.next_counter(),
            occurred: self.occurred || self.asserts_on_clock(),
            ..self
        }
    }

    /// The counter after `n` clocks.
    pub open spec fn after_clocks(self, n: nat) -> Self
        decreases n,
    {
        if n == 0 {
            self
        } else {
            self.after_clocks((n - 1) as nat).after_clock()
        }
    }

    /// A disabled counter at zero.
    pub fn new() -> (i: Irq)
        ensures
            i == (Irq {
                counter: 0,
                enabled: false,
                occurred: false,
                reload: 0,
                old_counter: 0,
                filter: 0,
            }),
    {
        Irq { counter: 0, enabled: false, occurred: false, reload: 0, old_counter: 0, filter: 0 }
    }

    /// One clock, as a filtered rising edge of address line 12 gives it.
    pub fn clock(&mut self)
        ensures
            *final(self) == old(self).after_clock(),
    {
        self.old_counter = self.counter;
        if self.counter == 0 {
            self.counter = self.reload;
        } else {
            self.counter = self.counter - 1;
        }
        if self.counter == 0 && self.enabled {
            self.occurred = true;
        }
    }
}

/// The mapper state on the picture bus.
#[derive(Clone, Copy, Debug)]
pub struct Mmc3 {
    pub banks: [usize; 6],
    pub irq: Irq,
    pub selected_bank_register: usize,
}

impl Mmc3 {
    /// All bank registers at zero.
    pub fn new() -> (m: Mmc3)
        ensures
            m.selected_bank_register == 0,
            m.irq == (Irq {
                counter: 0,
                enabled: false,
                occurred: false,
                reload: 0,
                old_counter: 0,
                filter: 0,
            }),
            forall|i: int| 0 <= i < 6 ==> m.banks[i] == 0,
    {
        Mmc3 { banks: [0; 6], irq: Irq::new(), selected_bank_register: 0 }
    }
}

/// Clocks change neither the latch nor the enable flag.
proof fn lemma_clocks_keep_setup(i: Irq, n: nat)
    ensures
        i.after_clocks(n).reload == i.reload,
        i.after_clocks(n).enabled == i.enabled,
    decreases n,
{
    if n > 0 {
        lemma_clocks_keep_setup(i, (n - 1) as nat);
    }
}

/// From a counter at zero, `k` clocks with `1 <= k <= reload + 1` leave the
/// counter at `reload + 1 - k`.
proof fn lemma_countdown(i: Irq, k: nat)
    requires
        i.counter == 0,
        1 <= k <= i.reload + 1,
    ensures
        i.after_clocks(k).counter == i.reload + 1 - k,
    decreases k,
{
    lemma_clocks_keep_setup(i, (k - 1) as nat);
    if k > 1 {
        lemma_countdown(i, (k - 1) as nat);
    }
}

/// With the interrupt enabled and the latch held, an interrupt follows the
/// previous one after exactly `reload + 1` clocks: counting from a counter at
/// zero, clock number `k` raises the interrupt if and only if `k` is
/// `reload + 1`.
pub proof fn lemma_interrupt_period(i: Irq, k: nat)
    requires
        i.enabled,
        i.counter == 0,
        1 <= k <= i.reload + 1,
    ensures
        i.after_clocks((k - 1) as nat).asserts_on_clock() <==> k == i.reload + 1,
        k == i.reload + 1 ==> i.after_clocks(k).occurred && i.after_clocks(k).counter == 0,
{
    lemma_clocks_keep_setup(i, (k - 1) as nat);
    if k > 1 {
        lemma_countdown(i, (k - 1) as nat);
    }
    lemma_countdown(i, k);
}

/// A disabled counter never raises the interrupt.
pub proof fn lemma_disabled_never_asserts(i: Irq, n: nat)
    requires
        !i.enabled,
    ensures
        i.after_clocks(n).occurred == i.occurred,
    decreases n,
{
    if n > 0 {
        lemma_disabled_never_asserts(i, (n - 1) as nat);
        lemma_clocks_keep_setup(i, (n - 1) as nat);
    }
}

} // verus!
