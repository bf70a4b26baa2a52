use vstd::prelude::*;

verus! {

/// DIV (as its 16-bit internal counter), TIMA, TMA and TAC.
#[derive(Copy, Clone, PartialEq, Eq, Structural, Debug)]
pub struct Timer {
    pub div: u16,
    pub tima: u8,
    pub tma: u8,
    pub tac: u8,
}

/// The bit of the internal counter whose falling edge clocks TIMA, by TAC bits 1..0.
pub open spec fn tac_clock_mask(tac: u8) -> u16 {
    if tac & 3 == 0 {
        1u16 << 9u16
    } else if tac & 3 == 1 {
        1u16 << 3u16
    } else if tac & 3 == 2 {
        1u16 << 5u16
    } else {
        1u16 << 7u16
    }
}

impl Timer {
    /// Whether this tick clocks TIMA: the selected counter bit falls and TAC bit 2 is set.
    pub open spec fn clocks_tima(self) -> bool {
        let next = (if self.div == 0xFFFF { 0 } else { self.div + 1 }) as u16;
        &&& self.div & tac_clock_mask(self.tac) != 0
        &&& next & tac_clock_mask(self.tac) == 0
        &&& self.tac & 4 != 0
    }

    /// The timer after one clock tick, and whether it requests the timer interrupt: when a
    /// clocked TIMA overflows past 0xFF it is reloaded from TMA and the interrupt is due.
    pub open spec fn ticked(self) -> (Timer, bool) {
        let next_div = (if self.div == 0xFFFF { 0 } else { self.div + 1 }) as u16;
        if self.clocks_tima() {
            if self.tima == 0xFF {
                (Timer { div: next_div, tima: self.tma, ..self }, true)
            } else {
                (Timer { div: next_div, tima: (self.tima + 1) as u8, ..self }, false)
            }
        } else {
            (Timer { div: next_div, ..self }, false)
        }
    }

    pub open spec fn read_spec(self, address: u16) -> u8 {
        if address == 0xFF04 {
            (self.div / 256) as u8
        } else if address == 0xFF05 {
            self.tima
        } else if address == 0xFF06 {
            self.tma
        } else {
            self.tac
        }
    }

    pub open spec fn written(self, address: u16, value: u8) -> Timer {
        if address == 0xFF04 {
            Timer { div: 0, ..self }
        } else if address == 0xFF05 {
            Timer { tima: value, ..self }
        } else if address == 0xFF06 {
            Timer { tma: value, ..self }
        } else {
            Timer { tac: value, ..self }
        }
    }

    pub fn new() -> (r: Self)
        ensures
            r == (Timer { div: 0xAC00, tima: 0, tma: 0, tac: 0 }),
    {
        Timer { div: 0xAC00, tima: 0, tma: 0, tac: 0 }
    }

    /// Advances the internal counter by one clock; returns whether TIMA overflowed, in which
    /// case TIMA is reloaded from TMA and the timer interrupt is due.
    pub fn timer_tick(&mut self) -> (interrupt: bool)
        ensures
            (*final(self), interrupt) == old(self).ticked(),
    {
        let prev_div: u16 = self.div;
        self.div = self.div.wrapping_add(1);
        let sel = self.tac & 0b11;
        let mask: u16 = if sel == 0 {
            1u16 << 9u16
        } else if sel == 1 {
            1u16 << 3u16
        } else if sel == 2 {
            1u16 << 5u16
        } else {
            1u16 << 7u16
        };
        let tima_should_increment = (prev_div & mask) != 0 && (self.div & mask) == 0;
        let tac = self.tac;
        assert((tac & (1u8 << 2u8)) == (tac & 4)) by (bit_vector);
        if tima_should_increment && (self.tac & (1u8 << 2u8)) != 0 {
            if self.tima == 0xFF {
                self.tima = self.tma;
                return true;
            }
            self.tima = self.tima + 1;
        }
        false
    }

    pub fn timer_write(&mut self, address: u16, value: u8)
        requires
            0xFF04 <= address <= 0xFF07,
        ensures
            *final(self) == old(self).written(address, value),
    {
        if address == 0xFF04 {
            self.div = 0;
        } else if address == 0xFF05 {
            self.tima = value;
        } else if address == 0xFF06 {
            self.tma = value;
        } else {
            self.tac = value;
        }
    }

    pub fn timer_read(&self, address: u16) -> (r: u8)
        requires
            0xFF04 <= address <= 0xFF07,
        ensures
            r == self.read_spec(address),
    {
        if address == 0xFF04 {
            let d = self.div;
            assert((d >> 8) == d / 256) by (bit_vector);
            (self.div >> 8) as u8
        } else if address == 0xFF05 {
            self.tima
        } else if address == 0xFF06 {
            self.tma
        } else {
            self.tac
        }
    }
}

/// Timer registers read back what was written to them, except DIV: any write to DIV
/// resets the internal counter, so DIV then reads 0.
pub proof fn law_timer_write_then_read(t: Timer, address: u16, value: u8)
    requires
        0xFF04 <= address <= 0xFF07,
    ensures
        t.written(address, value).read_spec(address) == if address == 0xFF04 { 0 } else { value },
{
}

/// Every tick advances the internal counter by one, wrapping at 0x10000.
pub proof fn law_tick_advances_counter(t: Timer)
    ensures
        t.ticked().0.div == (t.div + 1) % 0x10000,
        t.ticked().0.tma == t.tma && t.ticked().0.tac == t.tac,
{
}

/// The counter bit whose fall clocks TIMA falls exactly when the counter, advanced by one,
/// becomes a multiple of twice that bit's value.
proof fn lemma_falling_edge(div: u16, next: u16)
    by (bit_vector)
    requires
        next == (if div == 0xFFFF { 0 } else { div + 1 }),
    ensures
        (div & 0x200 != 0 && next & 0x200 == 0) == ((div + 1) % 1024 == 0),
        (div & 0x8 != 0 && next & 0x8 == 0) == ((div + 1) % 16 == 0),
        (div & 0x20 != 0 && next & 0x20 == 0) == ((div + 1) % 64 == 0),
        (div & 0x80 != 0 && next & 0x80 == 0) == ((div + 1) % 256 == 0),
{
}

/// The rate of TIMA: with TAC bit 2 set, a tick clocks TIMA exactly when the internal
/// counter reaches a multiple of 1024, 16, 64 or 256 ticks (TAC bits 1..0 = 0, 1, 2, 3:
/// 4096, 262144, 65536 or 16384 Hz); with it clear, never. A clocked TIMA counts up, and
/// past 0xFF is reloaded from TMA with the timer interrupt.
pub proof fn law_tima_rate(t: Timer)
    ensures
        ({
            let period: int = if t.tac % 4 == 0 {
                1024
            } else if t.tac % 4 == 1 {
                16
            } else if t.tac % 4 == 2 {
                64
            } else {
                256
            };
            let clocked = (t.tac / 4) % 2 == 1 && (t.div + 1) % period == 0;
            &&& t.ticked().0.tima == (if !clocked {
                t.tima
            } else if t.tima == 0xFF {
                t.tma
            } else {
                (t.tima + 1) as u8
            })
            &&& t.ticked().1 == (clocked && t.tima == 0xFF)
        }),
{
    let next = (if t.div == 0xFFFF { 0 } else { t.div + 1 }) as u16;
    lemma_falling_edge(t.div, next);
    let tac = t.tac;
    assert((tac & 4 != 0) == ((tac / 4) % 2 == 1) && (tac & 3) == tac % 4 && 1u16 << 9u16 == 0x200
        && 1u16 << 3u16 == 0x8 && 1u16 << 5u16 == 0x20 && 1u16 << 7u16 == 0x80) by (bit_vector);
}

} // verus!
