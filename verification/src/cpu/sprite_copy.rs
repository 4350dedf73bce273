//! The law of the copy into sprite memory: after the copy of a page of
//! work RAM, sprite memory holds the page, in order, from the sprite
//! address on, and the processor and its memory are as before.

use vstd::prelude::*;
use crate::apu::Apu;
use crate::bus::mapper::Mapper;
use crate::bus::Bus;
use crate::cpu::Cpu;
use crate::ppu::oam::Oam;
use crate::ppu::Ppu;
use crate::util::{word_of, wrap_add8};

verus! {

/// Whether the machine copies undisturbed: it has work RAM of its own, and
/// the sample channel has no byte left to fetch.
pub open spec fn undisturbed(m: Mapper) -> bool {
    !(m is MockBus) && m.bus_of().apu.dmc.length == 0
}

/// Whether `b` has the work RAM and the sprite memory of `a`, and is as
/// undisturbed.
pub open spec fn same_memories(a: Mapper, b: Mapper) -> bool {
    &&& b.bus_of().ram == a.bus_of().ram
    &&& b.bus_of().ppu.oam.buffer == a.bus_of().ppu.oam.buffer
    &&& b.bus_of().ppu.oam.addr == a.bus_of().ppu.oam.addr
    &&& undisturbed(b)
}

proof fn lemma_evaluation_keeps_bytes(o: Oam, scanline: int, size: u8, n: int)
    ensures
        o.after_evaluating(scanline, size, n).buffer == o.buffer,
        o.after_evaluating(scanline, size, n).addr == o.addr,
    decreases n,
{
    if n > 0 {
        lemma_evaluation_keeps_bytes(o, scanline, size, n - 1);
    }
}

proof fn lemma_fetches_keep_bytes(p: Ppu, rendering: bool)
    ensures
        p.after_bg_fetch(rendering).oam == p.oam,
        p.after_sprite_fetch(rendering).oam == p.oam,
        p.after_fetch_dot(rendering).oam == p.oam,
{
    reveal(Ppu::after_fetch_dot);
    reveal(Ppu::after_bg_fetch);
    reveal(Ppu::after_sprite_fetch);
    reveal(Ppu::after_sprite_start);
    reveal(Ppu::after_sprite_pattern);
    reveal(Ppu::reading);
    reveal(Ppu::fetching_watched);
}

proof fn lemma_pixel_step_keeps_bytes(p: Ppu, rendering: bool)
    ensures
        p.after_pixel_step(rendering).oam.buffer == p.oam.buffer,
        p.after_pixel_step(rendering).oam.addr == p.oam.addr,
{
    reveal(Ppu::after_pixel_step);
    reveal(Ppu::after_render);
    reveal(Ppu::composing);
    reveal(Ppu::after_show);
    reveal(Ppu::after_evaluation);
    let r = (Ppu { spr: p.spr.after_count_slots(8), ..p }).after_render();
    lemma_evaluation_keeps_bytes(r.oam, r.beam.scanline + 1, r.regs.ctrl.size, 64);
}

/// A dot of the picture unit leaves the bytes of sprite memory and the
/// sprite address alone.
proof fn lemma_dot_keeps_bytes(p: Ppu)
    ensures
        p.after_tick().oam.buffer == p.oam.buffer,
        p.after_tick().oam.addr == p.oam.addr,
{
    reveal(Ppu::after_tick);
    reveal(Ppu::after_dot_work);
    reveal(Ppu::after_visible_dot);
    reveal(Ppu::after_prerender_dot);
    reveal(Ppu::after_prerender_extra);
    reveal(Ppu::after_vblank_start);
    reveal(Ppu::after_scroll_delay);
    reveal(Ppu::after_a12_dot);
    let rendering = p.regs.rendering();
    lemma_fetches_keep_bytes(p, rendering);
    let s1 = if 257 <= p.beam.dot <= 320 {
        p.after_sprite_fetch(rendering)
    } else {
        p.after_bg_fetch(rendering)
    };
    lemma_pixel_step_keeps_bytes(s1, rendering);
    lemma_fetches_keep_bytes(p.after_prerender_extra(rendering), rendering);
}

/// A cycle of the audio unit gives a sample channel that has no byte left
/// no byte to fetch.
proof fn lemma_cycle_keeps_channel_idle(a: Apu)
    requires
        a.dmc.length == 0,
    ensures
        a.after_tick().dmc.length == 0,
{
    reveal(Apu::after_tick);
}

/// A processor cycle of an undisturbed machine leaves work RAM and sprite
/// memory alone, and the machine undisturbed.
proof fn lemma_clock_keeps_memories(m: Mapper)
    requires
        undisturbed(m),
    ensures
        same_memories(m, m.after_clock()),
        m.after_clock() is MockBus == m is MockBus,
{
    reveal(Mapper::after_units);
    reveal(Mapper::after_dmc_service);
    reveal(Bus::after_units);
    let b = m.bus_of();
    lemma_dot_keeps_bytes(b.ppu);
    lemma_dot_keeps_bytes(b.ppu.after_tick());
    lemma_dot_keeps_bytes(b.ppu.after_tick().after_tick());
    lemma_cycle_keeps_channel_idle(b.apu);
}

proof fn lemma_clocks_keep_memories(m: Mapper, n: nat)
    requires
        undisturbed(m),
    ensures
        same_memories(m, m.after_clocks(n)),
    decreases n,
{
    if n > 0 {
        lemma_clocks_keep_memories(m, (n - 1) as nat);
        lemma_clock_keeps_memories(m.after_clocks((n - 1) as nat));
    }
}

/// A read below 0x2000 returns the byte of work RAM, which repeats every
/// 0x800 bytes, and changes nothing.
proof fn lemma_ram_read(m: Mapper, addr: u16)
    requires
        !(m is MockBus),
        addr < 0x2000,
    ensures
        m.reading(addr) == (m.bus_of().ram[addr as int % 0x800], m),
{
    reveal(Mapper::reading);
    reveal(Bus::reading);
    reveal(crate::bus::mapper::mapper1::Mapper1::reading);
    reveal(crate::bus::mapper::mapper2::Mapper2::reading);
    reveal(crate::bus::mapper::mapper4::Mapper4::reading);
    reveal(crate::bus::mapper::mapper7::Mapper7::reading);
}

/// The byte of work RAM that the copy of page `page` takes as its byte `i`.
pub open spec fn source_byte(c: Cpu, page: u8, i: int) -> u8 {
    c.bus.bus_of().ram[(page * 256 + i) % 0x800]
}

/// Whether `r` is the processor `c` but for the bus and the cycle count.
pub open spec fn same_processor(c: Cpu, r: Cpu) -> bool {
    &&& r.regs == c.regs
    &&& r.sp == c.sp
    &&& r.pc == c.pc
    &&& r.p == c.p
    &&& r.nmi_acknowledged == c.nmi_acknowledged
}

proof fn lemma_wait_keeps_memories(c: Cpu, n: nat)
    requires
        undisturbed(c.bus),
    ensures
        same_memories(c.bus, c.after_tick(n).bus),
        same_processor(c, c.after_tick(n)),
{
    reveal(Cpu::after_tick);
    lemma_clocks_keep_memories(c.bus, n);
}

/// One byte of the copy: it lands at the sprite address, which moves on.
proof fn lemma_copy_byte(c: Cpu, page: u8, i: u8)
    requires
        undisturbed(c.bus),
        page < 0x20,
    ensures
        ({
            let r = c.after_dma_byte(page, i);
            let oam = c.bus.bus_of().ppu.oam;
            &&& undisturbed(r.bus)
            &&& same_processor(c, r)
            &&& r.bus.bus_of().ram == c.bus.bus_of().ram
            &&& r.bus.bus_of().ppu.oam.addr == wrap_add8(oam.addr, 1)
            &&& r.bus.bus_of().ppu.oam.buffer == vstd::array::spec_array_update(
                oam.buffer,
                oam.addr as int,
                source_byte(c, page, i as int),
            )
        }),
{
    reveal(Cpu::reading);
    reveal(Mapper::after_oam_write);
    let addr = word_of(i, page);
    assert(addr == page * 256 + i);
    lemma_ram_read(c.bus, addr);
    let f = c.reading(addr);
    assert(f.1 == c);
    let s1 = f.1.after_tick(1);
    lemma_wait_keeps_memories(f.1, 1);
    let s2 = s1.after_oam_write(f.0);
    assert(undisturbed(s2.bus));
    lemma_wait_keeps_memories(s2, 1);
}

/// A byte written `k` places past the start leaves the `k` bytes written
/// before it alone.
proof fn lemma_written_bytes_stay(
    before: [u8; 256],
    after: [u8; 256],
    a0: u8,
    k: nat,
    v: u8,
    source: spec_fn(int) -> u8,
)
    requires
        k < 256,
        after == vstd::array::spec_array_update(before, (a0 + k) % 256, v),
        forall|i: int| 0 <= i < k ==> before[(a0 + i) % 256] == #[trigger] source(i),
        v == source(k as int),
    ensures
        forall|i: int| 0 <= i < k + 1 ==> after[(a0 + i) % 256] == #[trigger] source(i),
{
    assert forall|i: int| 0 <= i < k + 1 implies after[(a0 + i) % 256] == #[trigger] source(
        i,
    ) by {
        if i < k {
            assert((a0 + i) % 256 != (a0 + k) % 256);
            assert(before[(a0 + i) % 256] == source(i));
        }
    }
}

/// The first `n` bytes of the copy.
proof fn lemma_copy_bytes(c: Cpu, page: u8, n: nat)
    requires
        undisturbed(c.bus),
        page < 0x20,
        n <= 256,
    ensures
        ({
            let r = c.after_dma_bytes(page, n);
            let oam = c.bus.bus_of().ppu.oam;
            &&& undisturbed(r.bus)
            &&& same_processor(c, r)
            &&& r.bus.bus_of().ram == c.bus.bus_of().ram
            &&& r.bus.bus_of().ppu.oam.addr == (oam.addr + n) % 256
            &&& forall|i: int|
                0 <= i < n ==> r.bus.bus_of().ppu.oam.buffer[(oam.addr + i) % 256]
                    == #[trigger] source_byte(c, page, i)
        }),
    decreases n,
{
    if n > 0 {
        let k = (n - 1) as nat;
        lemma_copy_bytes(c, page, k);
        let q = c.after_dma_bytes(page, k);
        lemma_copy_byte(q, page, k as u8);
        let r = q.after_dma_byte(page, k as u8);
        assert(c.after_dma_bytes(page, n) == r);
        let a0 = c.bus.bus_of().ppu.oam.addr;
        let aq = q.bus.bus_of().ppu.oam.addr;
        assert(aq == (a0 + k) % 256);
        assert(wrap_add8(aq, 1) == (a0 + n) % 256);
        assert(source_byte(q, page, k as int) == source_byte(c, page, k as int));
        lemma_written_bytes_stay(
            q.bus.bus_of().ppu.oam.buffer,
            r.bus.bus_of().ppu.oam.buffer,
            a0,
            k,
            source_byte(c, page, k as int),
            |i: int| source_byte(c, page, i),
        );
    }
}

/// After page `page` of work RAM was copied, byte `i` of the page stands
/// in sprite memory at the sprite address plus `i`, modulo 256, for every
/// `i`; the sprite address is back where it was; work RAM and the
/// processor's registers, stack pointer, program counter and flags are
/// unchanged.  The law is stated for a machine with work RAM whose sample
/// channel fetches nothing during the copy.
pub proof fn lemma_dma_copies_the_page(c: Cpu, page: u8)
    requires
        undisturbed(c.bus),
        page < 0x20,
    ensures
        ({
            let r = c.after_dma(page);
            let oam = c.bus.bus_of().ppu.oam;
            &&& same_processor(c, r)
            &&& r.bus.bus_of().ram == c.bus.bus_of().ram
            &&& r.bus.bus_of().ppu.oam.addr == oam.addr
            &&& forall|i: int|
                0 <= i < 256 ==> r.bus.bus_of().ppu.oam.buffer[(oam.addr + i) % 256]
                    == #[trigger] source_byte(c, page, i)
        }),
{
    reveal(Cpu::after_dma);
    let w = c.after_tick(c.dma_wait());
    lemma_wait_keeps_memories(c, c.dma_wait());
    lemma_copy_bytes(w, page, 256);
    let r = c.after_dma(page);
    let a0 = c.bus.bus_of().ppu.oam.addr;
    assert forall|i: int| 0 <= i < 256 implies r.bus.bus_of().ppu.oam.buffer[(a0 + i) % 256]
        == #[trigger] source_byte(c, page, i) by {
        assert(source_byte(w, page, i) == source_byte(c, page, i));
    }
}

} // verus!
