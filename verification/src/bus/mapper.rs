//! The cartridge mappers and the tables that route address windows to banks.

use vstd::prelude::*;
use std::ops::Range;
use crate::apu::Apu;
use crate::bus::mapper::mapper0::Mapper0;
use crate::bus::mapper::mapper1::Mapper1;
use crate::bus::mapper::mapper2::Mapper2;
use crate::bus::mapper::mapper3::Mapper3;
use crate::bus::mapper::mapper4::Mapper4;
use crate::bus::mapper::mapper7::Mapper7;
use crate::bus::mapper::mockbus::MockBus;
use crate::bus::Bus;
use crate::controller::Controller;
use crate::ppu::Ppu;
use crate::util::{make_word, word_of, wrap_add16};

pub mod mapper0;
pub mod mapper1;
pub mod mapper2;
pub mod mapper3;
pub mod mapper4;
pub mod mapper7;
pub mod mockbus;

verus! {

/// A bank number and the address window it is mapped to.
pub type Setting = (usize, Range<i32>);

/// One row of a routing table: the addresses `start..end` show bank `bank`.
#[derive(Clone, Copy, Debug)]
pub struct Window {
    pub bank: usize,
    pub start: i32,
    pub end: i32,
}

/// A routing table of up to six windows.
#[derive(Clone, Copy, Debug)]
pub struct BankSettings {
    pub windows: [Window; 6],
    pub len: usize,
}

/// The row that fills the unused part of a table.
pub open spec fn blank() -> Window {
    Window { bank: 0, start: 0, end: 0 }
}

/// The row for a setting.
pub open spec fn row(s: Setting) -> Window {
    Window { bank: s.0, start: s.1.start, end: s.1.end }
}

impl BankSettings {
    /// The table holds at most six rows.
    pub open spec fn wf(self) -> bool {
        self.len <= 6
    }

    /// The table whose first rows are `rows`, in order.
    pub open spec fn of(rows: Seq<Window>) -> BankSettings {
        BankSettings {
            windows: [
                if rows.len() > 0 { rows[0] } else { blank() },
                if rows.len() > 1 { rows[1] } else { blank() },
                if rows.len() > 2 { rows[2] } else { blank() },
                if rows.len() > 3 { rows[3] } else { blank() },
                if rows.len() > 4 { rows[4] } else { blank() },
                if rows.len() > 5 { rows[5] } else { blank() },
            ],
            len: rows.len() as usize,
        }
    }

    /// The rows in use.
    pub open spec fn rows(self) -> Seq<Window> {
        Seq::new(self.len as nat, |i: int| self.windows[i])
    }

    /// The first row at or after `from` whose window starts at `start`.
    pub open spec fn row_starting(self, start: i32, from: int) -> Option<int>
        decreases self.len - from,
    {
        if from < 0 || from >= self.len || from >= 6 {
            None
        } else if self.windows[from].start == start {
            Some(from)
        } else {
            self.row_starting(start, from + 1)
        }
    }

    /// The first row at or after `from` whose window holds `addr`.
    pub open spec fn row_holding(self, addr: i32, from: int) -> Option<int>
        decreases self.len - from,
    {
        if from < 0 || from >= self.len || from >= 6 {
            None
        } else if self.windows[from].start <= addr < self.windows[from].end {
            Some(from)
        } else {
            self.row_holding(addr, from + 1)
        }
    }

    /// The window that holds `addr`, by the first row that does.
    pub open spec fn window_of(self, addr: i32) -> Option<Window> {
        match self.row_holding(addr, 0) {
            Some(i) => Some(self.windows[i]),
            None => None,
        }
    }

    /// The table after the first window starting at `start` was given bank `bank`.
    pub open spec fn after_set_bank(self, bank: usize, start: i32) -> Self {
        match self.row_starting(start, 0) {
            Some(i) => BankSettings {
                windows: vstd::array::spec_array_update(
                    self.windows,
                    i,
                    Window { bank, ..self.windows[i] },
                ),
                ..self
            },
            None => self,
        }
    }

    /// A table of the given settings, in order.
    pub fn new(settings: Vec<Setting>) -> (t: BankSettings)
        requires
            settings@.len() <= 6,
        ensures
            t == BankSettings::of(settings@.map_values(|s: Setting| row(s))),
            t.wf(),
    {
        let pad = Window { bank: 0, start: 0, end: 0 };
        let mut windows: [Window; 6] = [pad; 6];
        let n: usize = settings.len();
        let mut i: usize = 0;
        while i < n
            invariant
                i <= n <= 6,
                n == settings@.len(),
                forall|j: int| 0 <= j < i ==> windows[j] == row(settings@[j]),
                forall|j: int| i <= j < 6 ==> windows[j] == blank(),
            decreases n - i,
        {
            let bank: usize = settings[i].0;
            let start: i32 = settings[i].1.start;
            let end: i32 = settings[i].1.end;
            windows[i] = Window { bank, start, end };
            i = i + 1;
        }
        let t = BankSettings { windows, len: n };
        assert(t.windows =~= BankSettings::of(
            settings@.map_values(|s: Setting| row(s)),
        ).windows);
        t
    }

    /// A table of one window.
    pub fn single(a: Window) -> (t: BankSettings)
        ensures
            t == BankSettings::of(seq![a]),
            t.wf(),
    {
        let pad = Window { bank: 0, start: 0, end: 0 };
        BankSettings { windows: [a, pad, pad, pad, pad, pad], len: 1 }
    }

    /// A table of two windows.
    pub fn pair(a: Window, b: Window) -> (t: BankSettings)
        ensures
            t == BankSettings::of(seq![a, b]),
            t.wf(),
    {
        let pad = Window { bank: 0, start: 0, end: 0 };
        BankSettings { windows: [a, b, pad, pad, pad, pad], len: 2 }
    }

    /// A table of four windows.
    pub fn quad(a: Window, b: Window, c: Window, d: Window) -> (t: BankSettings)
        ensures
            t == BankSettings::of(seq![a, b, c, d]),
            t.wf(),
    {
        let pad = Window { bank: 0, start: 0, end: 0 };
        BankSettings { windows: [a, b, c, d, pad, pad], len: 4 }
    }

    /// A table of six windows.
    pub fn six(a: Window, b: Window, c: Window, d: Window, e: Window, f: Window) -> (t:
        BankSettings)
        ensures
            t == BankSettings::of(seq![a, b, c, d, e, f]),
            t.wf(),
    {
        BankSettings { windows: [a, b, c, d, e, f], len: 6 }
    }

    /// Finds the first row whose window starts at `start`.
    pub fn find_start(&self, start: i32) -> (r: Option<usize>)
        requires
            self.wf(),
        ensures
            match self.row_starting(start, 0) {
                Some(i) => r == Some(i as usize) && 0 <= i < self.len,
                None => r is None,
            },
    {
        let mut i: usize = 0;
        while i < self.len
            invariant
                i <= self.len <= 6,
                self.row_starting(start, 0) == self.row_starting(start, i as int),
            decreases self.len - i,
        {
            if self.windows[i].start == start {
                return Some(i);
            }
            i = i + 1;
        }
        None
    }

    /// Gives bank `bank` to the first window that starts where `addresses`
    /// starts; a table without such a window stays as it is.
    pub fn set_bank(&mut self, bank: usize, addresses: Range<i32>)
        requires
            old(self).wf(),
        ensures
            *final(self) == old(self).after_set_bank(bank, addresses.start),
            final(self).wf(),
    {
        match self.find_start(addresses.start) {
            Some(i) => {
                let w: Window = self.windows[i];
                self.windows[i] = Window { bank, start: w.start, end: w.end };
            },
            None => {},
        }
    }

    /// Takes over another table.
    pub fn replace(&mut self, settings: BankSettings)
        ensures
            *final(self) == settings,
    {
        *self = settings;
    }

    /// The rows in use, as settings.
    pub fn iter(&self) -> (v: Vec<Setting>)
        requires
            self.wf(),
        ensures
            v@.len() == self.len,
            forall|i: int| 0 <= i < self.len ==> row(#[trigger] v@[i]) == self.windows[i],
    {
        let mut v: Vec<Setting> = Vec::new();
        let mut i: usize = 0;
        while i < self.len
            invariant
                i <= self.len <= 6,
                v@.len() == i,
                forall|j: int| 0 <= j < i ==> row(#[trigger] v@[j]) == self.windows[j],
            decreases self.len - i,
        {
            let w: Window = self.windows[i];
            v.push((w.bank, w.start..w.end));
            i = i + 1;
        }
        v
    }

    /// Finds the window that holds `addr`.
    pub fn lookup(&self, addr: i32) -> (r: Option<Window>)
        requires
            self.wf(),
        ensures
            r == self.window_of(addr),
            r matches Some(w) ==> w.start <= addr < w.end,
    {
        let mut i: usize = 0;
        while i < self.len
            invariant
                i <= self.len <= 6,
                self.row_holding(addr, 0) == self.row_holding(addr, i as int),
            decreases self.len - i,
        {
            let w: Window = self.windows[i];
            if w.start <= addr && addr < w.end {
                return Some(w);
            }
            i = i + 1;
        }
        None
    }
}

/// The byte at `offset` of bank `bank` when `rom` is cut into banks of
/// `size` bytes, if the ROM holds that whole bank.
pub open spec fn banked_byte(rom: Seq<u8>, bank: int, size: int, offset: int) -> Option<u8> {
    if size > 0 && 0 <= offset < size && 0 <= bank && (bank + 1) * size <= rom.len() {
        Some(rom[bank * size + offset])
    } else {
        None
    }
}

/// Reads a byte of a banked ROM.
pub fn read_banked(rom: &Vec<u8>, bank: usize, size: usize, offset: usize) -> (r: Option<u8>)
    ensures
        r == banked_byte(rom@, bank as int, size as int, offset as int),
{
    if size == 0 || offset >= size {
        return None;
    }
    let len: usize = rom.len();
    let banks: usize = len / size;
    if bank >= banks {
        assert((bank + 1) * size > len) by (nonlinear_arith)
            requires
                bank >= len / size,
                size > 0,
        ;
        return None;
    }
    assert((bank + 1) * size <= len && bank * size + offset < len) by (nonlinear_arith)
        requires
            bank < len / size,
            size > 0,
            offset < size,
    ;
    assert(bank * size <= len) by (nonlinear_arith)
        requires
            (bank + 1) * size <= len,
            size > 0,
    ;
    Some(rom[bank * size + offset])
}

/// The cartridge in the slot, by the kind of its mapper.
#[derive(Clone)]
pub enum Mapper {
    Mapper0(Mapper0),
    Mapper1(Mapper1),
    Mapper2(Mapper2),
    Mapper3(Mapper3),
    Mapper4(Mapper4),
    Mapper7(Mapper7),
    MockBus(MockBus),
}

impl Mapper {
    /// The cartridge is well formed.
    #[verifier::opaque]
    pub open spec fn wf(self) -> bool {
        match self {
            Mapper::Mapper0(m) => m.wf(),
            Mapper::Mapper1(m) => m.wf(),
            Mapper::Mapper2(m) => m.wf(),
            Mapper::Mapper3(m) => m.wf(),
            Mapper::Mapper4(m) => m.wf(),
            Mapper::Mapper7(m) => m.wf(),
            Mapper::MockBus(m) => m.wf(),
        }
    }

    /// The common bus below the cartridge.
    pub open spec fn bus_of(self) -> Bus {
        match self {
            Mapper::Mapper0(m) => m.bus,
            Mapper::Mapper1(m) => m.bus,
            Mapper::Mapper2(m) => m.bus,
            Mapper::Mapper3(m) => m.bus,
            Mapper::Mapper4(m) => m.bus,
            Mapper::Mapper7(m) => m.bus,
            Mapper::MockBus(m) => m.bus,
        }
    }

    /// The cartridge over another bus.
    pub open spec fn with_bus(self, bus: Bus) -> Mapper {
        match self {
            Mapper::Mapper0(m) => Mapper::Mapper0(Mapper0 { bus, ..m }),
            Mapper::Mapper1(m) => Mapper::Mapper1(Mapper1 { bus, ..m }),
            Mapper::Mapper2(m) => Mapper::Mapper2(Mapper2 { bus, ..m }),
            Mapper::Mapper3(m) => Mapper::Mapper3(Mapper3 { bus, ..m }),
            Mapper::Mapper4(m) => Mapper::Mapper4(Mapper4 { bus, ..m }),
            Mapper::Mapper7(m) => Mapper::Mapper7(Mapper7 { bus, ..m }),
            Mapper::MockBus(m) => Mapper::MockBus(MockBus { bus, ..m }),
        }
    }

    /// What a read at `addr` returns and leaves behind.
    #[verifier::opaque]
    pub open spec fn reading(self, addr: u16) -> (u8, Mapper) {
        match self {
            Mapper::Mapper0(m) => (m.reading(addr).0, Mapper::Mapper0(m.reading(addr).1)),
            Mapper::Mapper1(m) => (m.reading(addr).0, Mapper::Mapper1(m.reading(addr).1)),
            Mapper::Mapper2(m) => (m.reading(addr).0, Mapper::Mapper2(m.reading(addr).1)),
            Mapper::Mapper3(m) => (m.reading(addr).0, Mapper::Mapper3(m.reading(addr).1)),
            Mapper::Mapper4(m) => (m.reading(addr).0, Mapper::Mapper4(m.reading(addr).1)),
            Mapper::Mapper7(m) => (m.reading(addr).0, Mapper::Mapper7(m.reading(addr).1)),
            Mapper::MockBus(m) => (m.reading(addr).0, Mapper::MockBus(m.reading(addr).1)),
        }
    }

    /// The cartridge after `data` was written at `addr`.
    #[verifier::opaque]
    pub open spec fn after_write(self, addr: u16, data: u8) -> Mapper {
        match self {
            Mapper::Mapper0(m) => Mapper::Mapper0(m.after_write(addr, data)),
            Mapper::Mapper1(m) => Mapper::Mapper1(m.after_write(addr, data)),
            Mapper::Mapper2(m) => Mapper::Mapper2(m.after_write(addr, data)),
            Mapper::Mapper3(m) => Mapper::Mapper3(m.after_write(addr, data)),
            Mapper::Mapper4(m) => Mapper::Mapper4(m.after_write(addr, data)),
            Mapper::Mapper7(m) => Mapper::Mapper7(m.after_write(addr, data)),
            Mapper::MockBus(m) => Mapper::MockBus(m.after_write(addr, data)),
        }
    }

    /// What a read of the word at `addr` returns and leaves behind: low
    /// byte first, the high byte from the next address modulo 65536.
    #[verifier::opaque]
    pub open spec fn reading_word(self, addr: u16) -> (u16, Mapper) {
        let l = self.reading(addr);
        let h = l.1.reading(wrap_add16(addr, 1));
        (word_of(l.0, h.0), h.1)
    }

    /// The cartridge after the word `data` was written at `addr`, low byte first.
    #[verifier::opaque]
    pub open spec fn after_write_word(self, addr: u16, data: u16) -> Mapper {
        self.after_write(addr, (data % 256) as u8).after_write(
            wrap_add16(addr, 1),
            (data / 256) as u8,
        )
    }

    /// The first address, on the processor bus or else on the picture bus,
    /// that reached a bank the cartridge does not hold.
    pub open spec fn fault_of(self) -> Option<u16> {
        if self.bus_of().fault is Some {
            self.bus_of().fault
        } else {
            self.bus_of().ppu.mem.fault
        }
    }

    /// The first address that reached a bank the cartridge does not hold.
    pub fn fault(&self) -> (r: Option<u16>)
        ensures
            r == self.fault_of(),
    {
        let bus: &Bus = match self {
            Mapper::Mapper0(m) => &m.bus,
            Mapper::Mapper1(m) => &m.bus,
            Mapper::Mapper2(m) => &m.bus,
            Mapper::Mapper3(m) => &m.bus,
            Mapper::Mapper4(m) => &m.bus,
            Mapper::Mapper7(m) => &m.bus,
            Mapper::MockBus(m) => &m.bus,
        };
        if bus.fault.is_some() {
            bus.fault
        } else {
            bus.ppu.mem.fault
        }
    }

    /// The common bus below the cartridge.
    pub fn bus(&mut self) -> (bus: &mut Bus)
        ensures
            *bus == old(self).bus_of(),
            *final(self) == old(self).with_bus(*final(bus)),
    {
        match self {
            Mapper::Mapper0(m) => &mut m.bus,
            Mapper::Mapper1(m) => &mut m.bus,
            Mapper::Mapper2(m) => &mut m.bus,
            Mapper::Mapper3(m) => &mut m.bus,
            Mapper::Mapper4(m) => &mut m.bus,
            Mapper::Mapper7(m) => &mut m.bus,
            Mapper::MockBus(m) => &mut m.bus,
        }
    }

    /// The audio unit.
    pub fn apu(&mut self) -> (apu: &mut Apu)
        ensures
            *apu == old(self).bus_of().apu,
            *final(self) == old(self).with_bus(Bus { apu: *final(apu), ..old(self).bus_of() }),
    {
        &mut self.bus().apu
    }

    /// The game pad.
    pub fn controller(&mut self) -> (pad: &mut Controller)
        ensures
            *pad == old(self).bus_of().controller1,
            *final(self) == old(self).with_bus(
                Bus { controller1: *final(pad), ..old(self).bus_of() },
            ),
    {
        &mut self.bus().controller1
    }

    /// The picture unit.
    pub fn ppu(&mut self) -> (ppu: &mut Ppu)
        ensures
            *ppu == old(self).bus_of().ppu,
            *final(self) == old(self).with_bus(Bus { ppu: *final(ppu), ..old(self).bus_of() }),
    {
        &mut self.bus().ppu
    }

    /// Reads a byte.
    pub fn read_u8(&mut self, addr: u16) -> (r: u8)
        requires
            old(self).wf(),
        ensures
            (r, *final(self)) == old(self).reading(addr),
            final(self).wf(),
    {
        proof {
            reveal(Mapper::reading);
            reveal(Mapper::wf);
        }
        match self {
            Mapper::Mapper0(m) => m.read_u8(addr),
            Mapper::Mapper1(m) => m.read_u8(addr),
            Mapper::Mapper2(m) => m.read_u8(addr),
            Mapper::Mapper3(m) => m.read_u8(addr),
            Mapper::Mapper4(m) => m.read_u8(addr),
            Mapper::Mapper7(m) => m.read_u8(addr),
            Mapper::MockBus(m) => m.read_u8(addr),
        }
    }

    /// Reads a word, low byte first.
    pub fn read_u16(&mut self, addr: u16) -> (r: u16)
        requires
            old(self).wf(),
        ensures
            (r, *final(self)) == old(self).reading_word(addr),
            final(self).wf(),
    {
        proof {
            reveal(Mapper::reading_word);
        }
        let l: u8 = self.read_u8(addr);
        let h: u8 = self.read_u8(crate::util::add16(addr, 1));
        make_word(l, h)
    }

    /// Writes a byte.
    pub fn write_u8(&mut self, addr: u16, data: u8)
        requires
            old(self).wf(),
        ensures
            *final(self) == old(self).after_write(addr, data),
            final(self).wf(),
    {
        proof {
            reveal(Mapper::after_write);
            reveal(Mapper::wf);
        }
        match self {
            Mapper::Mapper0(m) => m.write_u8(addr, data),
            Mapper::Mapper1(m) => m.write_u8(addr, data),
            Mapper::Mapper2(m) => m.write_u8(addr, data),
            Mapper::Mapper3(m) => m.write_u8(addr, data),
            Mapper::Mapper4(m) => m.write_u8(addr, data),
            Mapper::Mapper7(m) => m.write_u8(addr, data),
            Mapper::MockBus(m) => m.write_u8(addr, data),
        }
    }

    /// Writes a word, low byte first.
    pub fn write_u16(&mut self, addr: u16, data: u16)
        requires
            old(self).wf(),
        ensures
            *final(self) == old(self).after_write_word(addr, data),
            final(self).wf(),
    {
        proof {
            reveal(Mapper::after_write_word);
        }
        let h: u8 = crate::util::hi8(data);
        let l: u8 = crate::util::lo8(data);
        self.write_u8(addr, l);
        self.write_u8(crate::util::add16(addr, 1), h);
    }

    /// The work RAM that the cartridge keeps in a save file, if it keeps one.
    pub fn save_data(&self) -> (data: Option<[u8; 0x2000]>)
        ensures
            data == match *self {
                Mapper::Mapper1(m) => Some(m.sram),
                Mapper::Mapper4(m) => Some(m.sram),
                _ => None::<[u8; 0x2000]>,
            },
    {
        match self {
            Mapper::Mapper1(m) => Some(m.save_data()),
            Mapper::Mapper4(m) => Some(m.save_data()),
            _ => None,
        }
    }
}

} // verus!
