//! The copy of one page of memory into sprite memory, during which the
//! processor stands still.

use vstd::prelude::*;
use crate::cpu::Cpu;
use crate::util::{make_word, word_of};

verus! {

impl Cpu {
    /// The machine after `data` was written to sprite memory.
    pub open spec fn after_oam_write(self, data: u8) -> Cpu {
        Cpu { bus: self.bus.after_oam_write(data), ..self }
    }

    /// The machine after byte `i` of page `page` was copied: read, one
    /// cycle, written to sprite memory, one cycle.
    pub open spec fn after_dma_byte(self, page: u8, i: u8) -> Cpu {
        let f = self.reading(word_of(i, page));
        f.1.after_tick(1).after_oam_write(f.0).after_tick(1)
    }

    /// The machine after the first `n` bytes of page `page` were copied.
    pub open spec fn after_dma_bytes(self, page: u8, n: nat) -> Cpu
        decreases n,
    {
        if n == 0 {
            self
        } else {
            self.after_dma_bytes(page, (n - 1) as nat).after_dma_byte(page, (n - 1) as u8)
        }
    }

    /// The cycles the processor waits before the copy starts: one, and one
    /// more when the copy is asked for on an odd cycle.
    pub open spec fn dma_wait(self) -> nat {
        if self.cyc % 2 == 1 {
            2
        } else {
            1
        }
    }

    /// The machine after page `page` was copied into sprite memory.
    #[verifier::opaque]
    pub open spec fn after_dma(self, page: u8) -> Cpu {
        self.after_tick(self.dma_wait()).after_dma_bytes(page, 256)
    }

    /// Writes a byte to sprite memory.
    pub fn write_oam(&mut self, data: u8)
        requires
            old(self).wf(),
        ensures
            *final(self) == old(self).after_oam_write(data),
            final(self).wf(),
            final(self).cyc == old(self).cyc,
    {
        self.bus.write_oam(data);
    }

    /// Copies byte `i` of page `page`.
    pub fn dma_byte(&mut self, page: u8, i: u8)
        requires
            old(self).fits(2),
        ensures
            *final(self) == old(self).after_dma_byte(page, i),
            final(self).wf(),
            final(self).cyc == old(self).cyc + 2,
    {
        let data: u8 = self.read(make_word(i, page));
        self.tick(1);
        self.write_oam(data);
        self.tick(1);
    }

    /// Copies page `page` into sprite memory.  The copy takes 513 cycles
    /// when asked for on an even cycle, 514 on an odd one.
    pub fn dma(&mut self, page: u8)
        requires
            old(self).fits(514),
        ensures
            *final(self) == old(self).after_dma(page),
            final(self).wf(),
            final(self).cyc == old(self).cyc + 512 + old(self).dma_wait(),
    {
        proof {
            reveal(Cpu::after_dma);
        }
        if self.cyc % 2 == 1 {
            self.tick(2);
        } else {
            self.tick(1);
        }
        let ghost start = *self;
        let mut i: usize = 0;
        while i < 256
            invariant
                i <= 256,
                self.wf(),
                start.cyc + 512 <= usize::MAX,
                self.cyc == start.cyc + 2 * i,
                *self == start.after_dma_bytes(page, i as nat),
            decreases 256 - i,
        {
            self.dma_byte(page, i as u8);
            i = i + 1;
        }
    }
}

} // verus!
