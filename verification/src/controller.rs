//! The eight-button game pad with its strobe and shift index.

use vstd::prelude::*;
use crate::util::bit::{bit8, bit_at};
use crate::util::{bool_bit, flag_bit};

verus! {

/// The buttons, in the order in which the pad reports them.
#[derive(Clone, Copy, Debug, PartialEq, Eq, Structural)]
pub enum Btn {
    A,
    B,
    Select,
    Start,
    Up,
    Down,
    Left,
    Right,
}

impl Btn {
    /// Position of the button in the report order.
    pub open spec fn position(self) -> int {
        match self {
            Btn::A => 0,
            Btn::B => 1,
            Btn::Select => 2,
            Btn::Start => 3,
            Btn::Up => 4,
            Btn::Down => 5,
            Btn::Left => 6,
            Btn::Right => 7,
        }
    }

    /// Computes `position`.
    pub fn index(self) -> (i: usize)
        ensures
            i == self.position(),
    {
        match self {
            Btn::A => 0,
            Btn::B => 1,
            Btn::Select => 2,
            Btn::Start => 3,
            Btn::Up => 4,
            Btn::Down => 5,
            Btn::Left => 6,
            Btn::Right => 7,
        }
    }
}

/// One game pad.
#[derive(Clone, Copy, Debug)]
pub struct Controller {
    pub buttons: [bool; 8],
    pub idx: usize,
    pub strobe: bool,
}

impl Controller {
    /// The shift index never passes the eighth button.
    pub open spec fn wf(self) -> bool {
        self.idx <= 8
    }

    /// What the next read reports.
    pub open spec fn read_value(self) -> u8 {
        if self.strobe {
            bool_bit(self.buttons[0])
        } else if self.idx >= 8 {
            1
        } else {
            bool_bit(self.buttons[self.idx as int])
        }
    }

    /// The pad after one read.
    pub open spec fn after_read(self) -> Self {
        if self.strobe || self.idx >= 8 {
            self
        } else {
            Controller { idx: (self.idx + 1) as usize, ..self }
        }
    }

    /// The pad after `data` was written to its port.
    pub open spec fn after_write(self, data: u8) -> Self {
        let strobe = data % 2 == 1;
        Controller { idx: if strobe { self.idx } else { 0 }, strobe, ..self }
    }

    /// The pad after `n` reads in a row.
    pub open spec fn after_reads(self, n: nat) -> Self
        decreases n,
    {
        if n == 0 {
            self
        } else {
            self.after_reads((n - 1) as nat).after_read()
        }
    }

    /// A pad with no button held, strobe low.
    pub fn new() -> (c: Controller)
        ensures
            c.wf(),
            c.idx == 0,
            !c.strobe,
            forall|i: int| 0 <= i < 8 ==> !c.buttons[i],
    {
        Controller { buttons: [false; 8], idx: 0, strobe: false }
    }

    /// Holds `button` down.
    pub fn press(&mut self, button: Btn)
        ensures
            *final(self) == (Controller {
                buttons: vstd::array::spec_array_update(
                    old(self).buttons,
                    button.position(),
                    true,
                ),
                ..*old(self)
            }),
    {
        self.buttons[button.index()] = true;
    }

    /// Reports one button and, with strobe low, moves on to the next.
    pub fn read(&mut self) -> (r: u8)
        requires
            old(self).wf(),
        ensures
            r == old(self).read_value(),
            *final(self) == old(self).after_read(),
            final(self).wf(),
    {
        if self.strobe {
            flag_bit(self.buttons[0])
        } else if self.idx >= 8 {
            1
        } else {
            let idx: usize = self.idx;
            let status: u8 = flag_bit(self.buttons[idx]);
            self.idx = idx + 1;
            status
        }
    }

    /// Lets `button` go.
    pub fn release(&mut self, button: Btn)
        ensures
            *final(self) == (Controller {
                buttons: vstd::array::spec_array_update(
                    old(self).buttons,
                    button.position(),
                    false,
                ),
                ..*old(self)
            }),
    {
        self.buttons[button.index()] = false;
    }

    /// Takes the state of all eight buttons at once: bit `i` of `bits` is
    /// the button at position `i` of the report order.
    pub fn set_state(&mut self, bits: u8)
        ensures
            final(self).idx == old(self).idx,
            final(self).strobe == old(self).strobe,
            forall|i: int| 0 <= i < 8 ==> final(self).buttons[i] == bit_at(bits as int, i),
    {
        self.buttons = [
            bit8(bits, 0),
            bit8(bits, 1),
            bit8(bits, 2),
            bit8(bits, 3),
            bit8(bits, 4),
            bit8(bits, 5),
            bit8(bits, 6),
            bit8(bits, 7),
        ];
    }

    /// Sets the strobe from bit 0 of `data`; strobe low restarts the report.
    pub fn write(&mut self, data: u8)
        ensures
            *final(self) == old(self).after_write(data),
            old(self).wf() ==> final(self).wf(),
    {
        let strobe: bool = data % 2 == 1;
        if !strobe {
            self.idx = 0;
        }
        self.strobe = strobe;
    }
}

/// After a write with bit 0 low the pad has restarted: `n` reads later the
/// index stands at `n`, or at 8 once all buttons were reported.
proof fn lemma_reads_advance(c: Controller, n: nat)
    requires
        !c.strobe,
        c.idx == 0,
    ensures
        c.after_reads(n).idx == if n <= 8 { n } else { 8 },
        c.after_reads(n).buttons == c.buttons,
        !c.after_reads(n).strobe,
    decreases n,
{
    if n > 0 {
        lemma_reads_advance(c, (n - 1) as nat);
    }
}

/// Strobing the pad high then low and reading it reports the eight buttons in
/// the order A, B, Select, Start, Up, Down, Left, Right, and 1 ever after.
pub proof fn lemma_round_trip(c: Controller, hi: u8, lo: u8, n: nat)
    requires
        hi % 2 == 1,
        lo % 2 == 0,
    ensures
        ({
            let started = c.after_write(hi).after_write(lo);
            started.after_reads(n).read_value() == if n < 8 {
                bool_bit(c.buttons[n as int])
            } else {
                1u8
            }
        }),
{
    let started = c.after_write(hi).after_write(lo);
    lemma_reads_advance(started, n);
}

/// While the strobe is high every read reports button A and nothing moves.
pub proof fn lemma_strobe_high_reads_a(c: Controller, hi: u8, n: nat)
    requires
        hi % 2 == 1,
    ensures
        c.after_write(hi).after_reads(n) == c.after_write(hi),
        c.after_write(hi).read_value() == bool_bit(c.buttons[0]),
    decreases n,
{
    if n > 0 {
        lemma_strobe_high_reads_a(c, hi, (n - 1) as nat);
    }
}

} // verus!
