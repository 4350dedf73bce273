//! Laws of the vertical-blank interrupt and of the status flags: where in a
//! frame the interrupt is latched, what takes the latch back, and where
//! the flags fall.

use vstd::prelude::*;
use crate::ppu::registers::lemma_status_read;
use crate::ppu::Ppu;
use crate::util::bit::bit_at;

verus! {

/// Whether `r` has the interrupt latch of `p`: the requests that wait, the
/// mark of this vertical blank, the vertical-blank flag and the enable bit.
pub open spec fn same_latch(p: Ppu, r: Ppu) -> bool {
    &&& r.regs.interrupts == p.regs.interrupts
    &&& r.regs.nmi_occurred == p.regs.nmi_occurred
    &&& r.regs.status.vblank == p.regs.status.vblank
    &&& r.regs.ctrl == p.regs.ctrl
}

/// Whether `r` has the interrupt latch and the three status flags of `p`.
pub open spec fn same_flags(p: Ppu, r: Ppu) -> bool {
    same_latch(p, r) && r.regs.status == p.regs.status
}

/// The background fetch of a dot touches neither latch nor flags.
proof fn lemma_bg_fetch_keeps(p: Ppu, rendering: bool)
    ensures
        same_flags(p, p.after_bg_fetch(rendering)),
{
    reveal(Ppu::after_bg_fetch);
    reveal(Ppu::reading);
    reveal(Ppu::fetching_watched);
}

/// Nor does the sprite fetch of a dot.
proof fn lemma_sprite_fetch_keeps(p: Ppu, rendering: bool)
    ensures
        same_flags(p, p.after_sprite_fetch(rendering)),
{
    reveal(Ppu::after_sprite_fetch);
    reveal(Ppu::after_sprite_start);
    reveal(Ppu::after_sprite_pattern);
    reveal(Ppu::reading);
    reveal(Ppu::fetching_watched);
}

/// Nor do the fetches of a dot on which no pixel is composed.
proof fn lemma_fetch_dot_keeps(p: Ppu, rendering: bool)
    ensures
        same_flags(p, p.after_fetch_dot(rendering)),
{
    reveal(Ppu::after_fetch_dot);
    lemma_bg_fetch_keeps(p, rendering);
    lemma_sprite_fetch_keeps(p, rendering);
}

/// The pixel of a dot, with the evaluation of sprites, keeps the latch.
proof fn lemma_pixel_step_keeps(p: Ppu, rendering: bool)
    ensures
        same_latch(p, p.after_pixel_step(rendering)),
{
    reveal(Ppu::after_pixel_step);
    reveal(Ppu::after_render);
    reveal(Ppu::composing);
    reveal(Ppu::after_show);
    reveal(Ppu::after_evaluation);
}

/// A dot of a visible line keeps the latch.
proof fn lemma_visible_dot_keeps(p: Ppu, rendering: bool)
    ensures
        same_latch(p, p.after_visible_dot(rendering)),
{
    reveal(Ppu::after_visible_dot);
    lemma_bg_fetch_keeps(p, rendering);
    lemma_sprite_fetch_keeps(p, rendering);
    let s1 = if 257 <= p.beam.dot <= 320 {
        p.after_sprite_fetch(rendering)
    } else {
        p.after_bg_fetch(rendering)
    };
    lemma_pixel_step_keeps(s1, rendering);
}

/// The end of a tick, the delayed address write and the address watcher,
/// touches neither latch nor flags.
proof fn lemma_tick_end_keeps(p: Ppu)
    ensures
        same_flags(p, p.after_scroll_delay()),
        same_flags(p, p.after_a12_dot()),
        same_flags(p, p.after_scroll_delay().after_a12_dot()),
{
    reveal(Ppu::after_scroll_delay);
    reveal(Ppu::after_a12_dot);
}

/// On dot 1 of line 241 the vertical-blank flag rises.  With the interrupt
/// enabled it is latched, once: one request more waits, marked as this
/// blank's.  With the interrupt disabled nothing is latched.
pub proof fn lemma_vblank_start(p: Ppu)
    requires
        p.beam.scanline == 241,
        p.beam.dot == 1,
    ensures
        p.after_tick().regs.status.vblank,
        p.regs.ctrl.nmi ==> p.after_tick().regs.nmi_occurred && p.after_tick().regs.interrupts == (
        if p.regs.interrupts < usize::MAX {
            p.regs.interrupts + 1
        } else {
            p.regs.interrupts as int
        }),
        !p.regs.ctrl.nmi ==> p.after_tick().regs.interrupts == p.regs.interrupts
            && p.after_tick().regs.nmi_occurred == p.regs.nmi_occurred,
{
    reveal(Ppu::after_tick);
    reveal(Ppu::after_dot_work);
    reveal(Ppu::after_vblank_start);
    let s1 = p.after_dot_work();
    let s2 = Ppu { beam: s1.beam.after_advance(), ..s1 };
    lemma_tick_end_keeps(s2);
}

/// No other tick latches the interrupt: away from dot 1 of line 241 the
/// number of waiting requests stays, so that a frame latches at most once
/// by itself.
pub proof fn lemma_requests_only_at_vblank_start(p: Ppu)
    requires
        !(p.beam.scanline == 241 && p.beam.dot == 1),
    ensures
        p.after_tick().regs.interrupts == p.regs.interrupts,
        p.after_tick().regs.ctrl == p.regs.ctrl,
{
    reveal(Ppu::after_tick);
    reveal(Ppu::after_dot_work);
    reveal(Ppu::after_prerender_dot);
    reveal(Ppu::after_prerender_extra);
    let rendering = p.regs.rendering();
    lemma_visible_dot_keeps(p, rendering);
    lemma_fetch_dot_keeps(p.after_prerender_extra(rendering), rendering);
    let s1 = p.after_dot_work();
    let s2 = Ppu { beam: s1.beam.after_advance(), ..s1 };
    lemma_tick_end_keeps(s2);
}

/// A read of the status port right after the vertical-blank flag rose
/// reports the flag and suppresses the interrupt of this frame: no request
/// more waits than before the flag rose, and none is marked as this blank's.
pub proof fn lemma_status_read_suppresses(p: Ppu)
    requires
        p.beam.scanline == 241,
        p.beam.dot == 1,
        p.regs.ctrl.nmi,
        p.regs.interrupts < usize::MAX,
    ensures
        bit_at(p.after_tick().reading_reg(2).0 as int, 7),
        !p.after_tick().reading_reg(2).1.regs.status.vblank,
        !p.after_tick().reading_reg(2).1.regs.nmi_occurred,
        p.after_tick().reading_reg(2).1.regs.interrupts == p.regs.interrupts,
{
    lemma_vblank_start(p);
    lemma_status_read(p.after_tick());
}

/// On dot 1 of the pre-render line the vertical-blank flag, the
/// sprite-zero flag and the overflow flag fall, and they are down when the
/// tick is over; no request of the past blank is marked any more.
pub proof fn lemma_prerender_clears_flags(p: Ppu)
    requires
        p.beam.scanline == 261,
        p.beam.dot == 1,
    ensures
        !p.after_tick().regs.status.vblank,
        !p.after_tick().regs.status.spr_0_hit,
        !p.after_tick().regs.status.spr_overflow,
        !p.after_tick().regs.nmi_occurred,
{
    reveal(Ppu::after_tick);
    reveal(Ppu::after_dot_work);
    reveal(Ppu::after_prerender_dot);
    reveal(Ppu::after_prerender_extra);
    let rendering = p.regs.rendering();
    lemma_fetch_dot_keeps(p.after_prerender_extra(rendering), rendering);
    let s1 = p.after_dot_work();
    let s2 = Ppu { beam: s1.beam.after_advance(), ..s1 };
    lemma_tick_end_keeps(s2);
}

} // verus!
