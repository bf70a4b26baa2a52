use vstd::prelude::*;
use crate::hdw::bus::BUS;

verus! {

/// OAM DMA: copies 0xA0 bytes from `byte_value * 0x100` into OAM, one per tick,
/// after a start delay of two ticks.
#[derive(Copy, Clone, PartialEq, Eq, Structural, Debug)]
pub struct DMA {
    pub active: bool,
    pub current_byte: u8,
    pub byte_value: u8,
    pub start_delay: u8,
}

impl DMA {
    pub open spec fn wf(self) -> bool {
        self.active ==> self.current_byte < 0xA0
    }

    pub open spec fn idle() -> DMA {
        DMA { active: false, current_byte: 0, byte_value: 0, start_delay: 0 }
    }

    pub open spec fn started(start: u8) -> DMA {
        DMA { active: true, current_byte: 0, byte_value: start, start_delay: 2 }
    }

    /// What one `dma_tick` against `bus` does: nothing when idle; one tick of the start
    /// delay; else the next byte copied from the source into OAM.
    pub open spec fn stepped(self, bus: BUS) -> (DMA, BUS) {
        if !self.active {
            (self, bus)
        } else if self.start_delay > 0 {
            (DMA { start_delay: (self.start_delay - 1) as u8, ..self }, bus)
        } else {
            (
                DMA { current_byte: (self.current_byte + 1) as u8, active: self.current_byte + 1 < 0xA0, ..self },
                BUS { ppu: bus.ppu.oam_written(self.current_byte as u16, bus.read_spec(self.source())), ..bus },
            )
        }
    }

    /// What the next `dma_tick` returns: whether it copies a byte after which bytes are
    /// left to copy.
    pub open spec fn tick_result(self) -> bool {
        self.active && self.start_delay == 0 && self.current_byte + 1 < 0xA0
    }

    /// Address of the byte that the next transfer step copies.
    pub open spec fn source(self) -> u16 {
        (self.byte_value * 0x100 + self.current_byte) as u16
    }

    pub fn new() -> (r: Self)
        ensures
            r == DMA::idle(),
    {
        DMA { active: false, current_byte: 0, byte_value: 0, start_delay: 0 }
    }

    pub fn dma_start(&mut self, start: u8)
        ensures
            *final(self) == DMA::started(start),
    {
        self.active = true;
        self.current_byte = 0;
        self.byte_value = start;
        self.start_delay = 2;
    }

    /// One transfer step against `bus`; returns whether the transfer is still active.
    pub fn dma_tick(&mut self, bus: &mut BUS) -> (r: bool)
        requires
            old(self).wf(),
            old(bus).wf(),
        ensures
            !old(self).active ==> !r && *final(self) == *old(self) && *final(bus) == *old(bus),
            old(self).active && old(self).start_delay > 0 ==> !r && *final(self) == (DMA {
                start_delay: (old(self).start_delay - 1) as u8,
                ..*old(self)
            }) && *final(bus) == *old(bus),
            old(self).active && old(self).start_delay == 0 ==> {
                &&& *final(bus) == (BUS {
                    ppu: old(bus).ppu.oam_written(
                        old(self).current_byte as u16,
                        old(bus).read_spec(old(self).source()),
                    ),
                    ..*old(bus)
                })
                &&& *final(self) == (DMA {
                    current_byte: (old(self).current_byte + 1) as u8,
                    active: old(self).current_byte + 1 < 0xA0,
                    ..*old(self)
                })
                &&& r == final(self).active
            },
            (*final(self), *final(bus)) == old(self).stepped(*old(bus)),
            r == old(self).tick_result(),
            final(self).wf(),
            final(bus).wf(),
    {
        if !self.active {
            return false;
        }
        if self.start_delay > 0 {
            self.start_delay = self.start_delay - 1;
            return false;
        }
        let address: u16 = (self.byte_value as u16) * 0x100 + self.current_byte as u16;
        let value = bus.read_byte(address);
        bus.ppu.ppu_oam_write(self.current_byte as u16, value);
        self.current_byte = self.current_byte + 1;
        self.active = self.current_byte < 0xA0;
        self.active
    }

    pub fn dma_transferring(&self) -> (r: bool)
        ensures
            r == self.active,
    {
        self.active
    }
}

/// `n` calls of `dma_tick` against a bus that nothing else touches.
pub open spec fn dma_run(d: DMA, bus: BUS, n: nat) -> (DMA, BUS)
    decreases n,
{
    if n == 0 {
        (d, bus)
    } else {
        let (d2, b2) = d.stepped(bus);
        dma_run(d2, b2, (n - 1) as nat)
    }
}

proof fn lemma_dma_run_last(d: DMA, bus: BUS, n: nat)
    ensures
        dma_run(d, bus, n + 1) == dma_run(d, bus, n).0.stepped(dma_run(d, bus, n).1),
    decreases n,
{
    reveal_with_fuel(dma_run, 2);
    if n > 0 {
        let (d2, b2) = d.stepped(bus);
        lemma_dma_run_last(d2, b2, (n - 1) as nat);
    }
}

/// OAM byte `j` (0-based) after a write of `v` to OAM byte `i`.
proof fn lemma_oam_write_read(bus: BUS, i: u16, j: u16, v: u8)
    requires
        i < 0xA0,
        j < 0xA0,
    ensures
        bus.ppu.oam_written(i, v).oam_at(j) == if i == j { v } else { bus.ppu.oam_at(j) },
{
}

/// Reading outside OAM does not depend on OAM.
proof fn lemma_read_ignores_oam(bus: BUS, b: BUS, address: u16)
    requires
        b == (BUS { ppu: crate::hdw::ppu::PPU { oam_ram: b.ppu.oam_ram, ..bus.ppu }, ..bus }),
        !(0xFE00 <= address <= 0xFE9F),
    ensures
        b.read_spec(address) == bus.read_spec(address),
{
    reveal(BUS::read_spec);
    reveal(crate::hdw::io::io_read_spec);
}

/// Reading OAM byte `k` through the bus depends on OAM only through that byte.
proof fn lemma_read_oam_byte(bus: BUS, b: BUS, k: u16)
    requires
        b == (BUS { ppu: crate::hdw::ppu::PPU { oam_ram: b.ppu.oam_ram, ..bus.ppu }, ..bus }),
        k < 0xA0,
        b.ppu.oam_at(k) == bus.ppu.oam_at(k),
    ensures
        b.read_spec((0xFE00 + k) as u16) == bus.read_spec((0xFE00 + k) as u16),
{
    reveal(BUS::read_spec);
    assert(b.ppu.oam_at((0xFE00 + k) as u16) == b.ppu.oam_at(k));
    assert(bus.ppu.oam_at((0xFE00 + k) as u16) == bus.ppu.oam_at(k));
}

/// After the two ticks of start delay and `i` more, `i` bytes have been copied: the DMA
/// points at byte `i` (active while `i` < 0xA0), only OAM changed, OAM byte `j` holds
/// the source byte `j` for every `j` < `i`, and the OAM bytes from `i` on are as they were.
proof fn lemma_dma_progress(start: u8, bus: BUS, i: nat)
    requires
        i <= 0xA0,
    ensures
        ({
            let (d, b) = dma_run(DMA::started(start), bus, 2 + i);
            &&& d == (DMA { active: i < 0xA0, current_byte: i as u8, byte_value: start, start_delay: 0 })
            &&& b == (BUS { ppu: crate::hdw::ppu::PPU { oam_ram: b.ppu.oam_ram, ..bus.ppu }, ..bus })
            &&& forall|j: u16| j < i ==> #[trigger] b.ppu.oam_at(j) == bus.read_spec((start * 0x100 + j) as u16)
            &&& forall|j: u16| i <= j < 0xA0 ==> #[trigger] b.ppu.oam_at(j) == bus.ppu.oam_at(j)
        }),
    decreases i,
{
    let d0 = DMA::started(start);
    assert(dma_run(d0, bus, 1) == (DMA { start_delay: 1, ..d0 }, bus)) by {
        lemma_dma_run_last(d0, bus, 0);
    }
    assert(dma_run(d0, bus, 2) == (DMA { start_delay: 0, ..d0 }, bus)) by {
        lemma_dma_run_last(d0, bus, 1);
    }
    if i > 0 {
        let k = (i - 1) as nat;
        lemma_dma_progress(start, bus, k);
        lemma_dma_run_last(d0, bus, 2 + k);
        let (d, b) = dma_run(d0, bus, 2 + k);
        let src = d.source();
        assert(src == (start * 0x100 + k) as u16);
        if start == 0xFE {
            assert(b.ppu.oam_at(k as u16) == bus.ppu.oam_at(k as u16));
            lemma_read_oam_byte(bus, b, k as u16);
        } else {
            assert(!(0xFE00 <= src <= 0xFE9F));
            lemma_read_ignores_oam(bus, b, src);
        }
        let v = b.read_spec(src);
        assert(v == bus.read_spec(src));
        let (d2, b2) = d.stepped(b);
        assert forall|j: u16| j < i implies b2.ppu.oam_at(j) == bus.read_spec((start * 0x100 + j) as u16) by {
            lemma_oam_write_read(b, k as u16, j, v);
        }
        assert forall|j: u16| i <= j < 0xA0 implies b2.ppu.oam_at(j) == bus.ppu.oam_at(j) by {
            lemma_oam_write_read(b, k as u16, j, v);
        }
    }
}

/// An OAM DMA transfer started with source page `start` copies, over 162 calls of
/// `dma_tick` (two of start delay, then one byte each), the 160 bytes that the bus held at
/// `start * 0x100` when it started into OAM bytes 0..0xA0 (addresses 0xFE00..0xFEA0) and
/// then stops; further calls change nothing. Nothing but OAM and the DMA state changes.
/// From OAM's own page the bytes are copied onto themselves.
pub proof fn law_dma_transfer(start: u8, bus: BUS, extra: nat)
    ensures
        ({
            let (d, b) = dma_run(DMA::started(start), bus, 2 + 0xA0 + extra);
            &&& !d.active
            &&& b == (BUS { ppu: crate::hdw::ppu::PPU { oam_ram: b.ppu.oam_ram, ..bus.ppu }, ..bus })
            &&& forall|j: u16| j < 0xA0 ==> #[trigger] b.ppu.oam_at(j) == bus.read_spec((start * 0x100 + j) as u16)
        }),
    decreases extra,
{
    if extra == 0 {
        lemma_dma_progress(start, bus, 0xA0);
    } else {
        law_dma_transfer(start, bus, (extra - 1) as nat);
        lemma_dma_run_last(DMA::started(start), bus, (2 + 0xA0 + extra - 1) as nat);
    }
}

/// What the calls of `dma_tick` after `dma_start` return: call `n + 1` returns true
/// exactly when it copies byte `n - 2` and bytes are left after it, so the first two
/// calls (the start delay) return false, call 3 + i returns i < 159 for the 160 bytes,
/// and every call after the transfer returns false.
pub proof fn law_dma_tick_results(start: u8, bus: BUS, n: nat)
    ensures
        dma_run(DMA::started(start), bus, n).0.tick_result() == (2 <= n && n < 2 + 0x9F),
{
    let d0 = DMA::started(start);
    if n == 0 {
    } else if n == 1 {
        lemma_dma_run_last(d0, bus, 0);
    } else if n <= 2 + 0xA0 {
        lemma_dma_progress(start, bus, (n - 2) as nat);
    } else {
        law_dma_transfer(start, bus, (n - 2 - 0xA0) as nat);
    }
}

} // verus!
