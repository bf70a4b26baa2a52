use vstd::prelude::*;
use vstd::array::spec_array_update;
use crate::hdw::interrupts::Interrupts;
use crate::hdw::lcd::{LCD, LcdMode, StatSrc};

verus! {

broadcast use vstd::array::group_array_axioms;

/// One sprite entry of object attribute memory.
#[derive(Copy, Clone, PartialEq, Eq, Structural, Debug)]
pub struct OAMEntry {
    pub y: u8,
    pub x: u8,
    pub tile: u8,
    pub flags: u8,
}

pub const LINES_PER_FRAME: u8 = 154;
pub const TICKS_PER_LINE: u32 = 456;
pub const YRES: u8 = 144;
pub const XRES: u8 = 160;

/// Pixels in one frame (XRES * YRES).
pub const FRAME_PIXELS: usize = 23040;

impl OAMEntry {
    /// Byte `i` of the entry in memory order y, x, tile, flags.
    pub open spec fn byte(self, i: int) -> u8 {
        if i == 0 {
            self.y
        } else if i == 1 {
            self.x
        } else if i == 2 {
            self.tile
        } else {
            self.flags
        }
    }

    pub open spec fn with_byte(self, i: int, v: u8) -> OAMEntry {
        if i == 0 {
            OAMEntry { y: v, ..self }
        } else if i == 1 {
            OAMEntry { x: v, ..self }
        } else if i == 2 {
            OAMEntry { tile: v, ..self }
        } else {
            OAMEntry { flags: v, ..self }
        }
    }

    pub fn new() -> (r: Self)
        ensures
            r == (OAMEntry { y: 0, x: 0, tile: 0, flags: 0 }),
    {
        OAMEntry { y: 0, x: 0, tile: 0, flags: 0 }
    }

    pub fn to_bytes(&self) -> (r: [u8; 4])
        ensures
            r@ == seq![self.y, self.x, self.tile, self.flags],
    {
        let r = [self.y, self.x, self.tile, self.flags];
        assert(r@ =~= seq![self.y, self.x, self.tile, self.flags]);
        r
    }

    pub fn from_bytes(bytes: [u8; 4]) -> (r: Self)
        ensures
            r == (OAMEntry { y: bytes@[0], x: bytes@[1], tile: bytes@[2], flags: bytes@[3] }),
    {
        OAMEntry { y: bytes[0], x: bytes[1], tile: bytes[2], flags: bytes[3] }
    }
}

/// Offset into OAM of a CPU address (0xFE00-based) or of a DMA offset (already 0-based).
pub open spec fn oam_offset(address: u16) -> int {
    if address >= 0xFE00 {
        address - 0xFE00
    } else {
        address as int
    }
}

pub open spec fn oam_address_ok(address: u16) -> bool {
    0 <= oam_offset(address) < 0xA0
}

/// Pixel processing unit: OAM, VRAM, scanline timing and the LCD registers.
pub struct PPU {
    pub oam_ram: [OAMEntry; 40],
    pub vram: [u8; 0x2000],
    pub ly: u8,
    pub current_frame: u32,
    pub video_buffer: Vec<u32>,
    pub line_ticks: u32,
    pub lcd: LCD,
}

impl PPU {
    pub open spec fn oam_at(self, address: u16) -> u8 {
        let off = oam_offset(address);
        self.oam_ram@[off / 4].byte(off % 4)
    }

    pub open spec fn vram_at(self, address: u16) -> u8 {
        self.vram@[address - 0x8000]
    }

    pub open spec fn oam_written(self, address: u16, value: u8) -> PPU {
        let off = oam_offset(address);
        PPU {
            oam_ram: spec_array_update(
                self.oam_ram,
                off / 4,
                self.oam_ram@[off / 4].with_byte(off % 4, value),
            ),
            ..self
        }
    }

    pub open spec fn vram_written(self, address: u16, value: u8) -> PPU {
        PPU { vram: spec_array_update(self.vram, address - 0x8000, value), ..self }
    }

    /// Whether one more tick keeps the counters of this PPU in range.
    pub open spec fn can_tick(self) -> bool {
        &&& self.line_ticks < u32::MAX
        &&& self.ly < 255
        &&& self.current_frame < u32::MAX
    }

    /// LY advanced by one, with the coincidence flag updated, and the STAT interrupt
    /// that the coincidence raises when its source is enabled.
    pub open spec fn ly_incremented(self) -> (PPU, Seq<Interrupts>) {
        let ly = (self.ly + 1) as u8;
        if ly == self.lcd.lyc {
            let lcd = self.lcd.with_lcds_bit(2, true);
            (
                PPU { ly, lcd, ..self },
                if lcd.lcds & StatSrc::LYC.mask() != 0 {
                    seq![Interrupts::LCDSTART]
                } else {
                    seq![]
                },
            )
        } else {
            (PPU { ly, lcd: self.lcd.with_lcds_bit(2, false), ..self }, seq![])
        }
    }

    /// End of a VBlank line: at 456 dots LY advances, and past the last line the frame
    /// starts over in OAM mode.
    pub open spec fn vblank_stepped(self) -> (PPU, Seq<Interrupts>) {
        if self.line_ticks >= TICKS_PER_LINE {
            let (q, ints) = self.ly_incremented();
            if q.ly >= LINES_PER_FRAME {
                (PPU { lcd: q.lcd.with_mode(LcdMode::OAM), ly: 0, line_ticks: 0, ..q }, ints)
            } else {
                (PPU { line_ticks: 0, ..q }, ints)
            }
        } else {
            (self, seq![])
        }
    }

    /// End of an HBlank line: at 456 dots LY advances; after the last visible line the
    /// PPU enters VBlank, requests VBLANK (and STAT where its VBlank source is enabled)
    /// and counts a frame; otherwise the next line starts in OAM mode.
    pub open spec fn hblank_stepped(self) -> (PPU, Seq<Interrupts>) {
        if self.line_ticks >= TICKS_PER_LINE {
            let (q, ints) = self.ly_incremented();
            if q.ly >= YRES {
                let lcd = q.lcd.with_mode(LcdMode::VBlank);
                (
                    PPU { lcd, current_frame: (q.current_frame + 1) as u32, line_ticks: 0, ..q },
                    ints.push(Interrupts::VBLANK) + if lcd.lcds & StatSrc::VBlank.mask() != 0 {
                        seq![Interrupts::LCDSTART]
                    } else {
                        seq![]
                    },
                )
            } else {
                (PPU { lcd: q.lcd.with_mode(LcdMode::OAM), line_ticks: 0, ..q }, ints)
            }
        } else {
            (self, seq![])
        }
    }

    /// The PPU after one dot, and the interrupts that the dot raises.
    pub open spec fn ticked(self) -> (PPU, Seq<Interrupts>) {
        let p = PPU { line_ticks: (self.line_ticks + 1) as u32, ..self };
        match self.lcd.mode() {
            LcdMode::OAM => if p.line_ticks >= 80 {
                (PPU { lcd: p.lcd.with_mode(LcdMode::Transfer), ..p }, seq![])
            } else {
                (p, seq![])
            },
            LcdMode::Transfer => if p.line_ticks >= 80 + 172 {
                (PPU { lcd: p.lcd.with_mode(LcdMode::HBlank), ..p }, seq![])
            } else {
                (p, seq![])
            },
            LcdMode::VBlank => p.vblank_stepped(),
            LcdMode::HBlank => p.hblank_stepped(),
        }
    }

    /// The state of `PPU::new`: blank OAM and VRAM, a black frame of 160x144 pixels,
    /// line and frame counters at 0, and the LCD at power-on in OAM mode.
    pub open spec fn is_power_on(self) -> bool {
        &&& forall|i: int| 0 <= i < 40 ==> self.oam_ram@[i] == (OAMEntry { y: 0, x: 0, tile: 0, flags: 0 })
        &&& forall|i: int| 0 <= i < 0x2000 ==> self.vram@[i] == 0
        &&& self.ly == 0
        &&& self.line_ticks == 0
        &&& self.current_frame == 0
        &&& self.video_buffer@.len() == (YRES as int) * (XRES as int)
        &&& forall|i: int| 0 <= i < self.video_buffer@.len() ==> self.video_buffer@[i] == 0
        &&& self.lcd.is_power_on_but_stat()
        &&& self.lcd.lcds == 0x86
    }

    /// Blank OAM and VRAM, an empty frame buffer of 160x144 pixels, LCD in OAM mode.
    pub fn new() -> (r: Self)
        ensures
            r.is_power_on(),
            r.lcd.mode() == LcdMode::OAM,
    {
        let mut video_buffer: Vec<u32> = Vec::new();
        let mut i: usize = 0;
        while i < FRAME_PIXELS
            invariant
                video_buffer@.len() == i,
                i <= FRAME_PIXELS,
                forall|j: int| 0 <= j < i ==> video_buffer@[j] == 0,
            decreases FRAME_PIXELS - i,
        {
            video_buffer.push(0);
            i = i + 1;
        }
        let mut ppu = PPU {
            oam_ram: [OAMEntry::new(); 40],
            vram: [0; 0x2000],
            ly: 0,
            line_ticks: 0,
            current_frame: 0,
            video_buffer,
            lcd: LCD::new(),
        };
        ppu.lcd.lcds_mode_set(LcdMode::OAM);
        assert((0x85u8 & !3u8) | 2u8 == 0x86u8) by (bit_vector);
        ppu
    }

    fn increment_ly(&mut self) -> (r: Vec<Interrupts>)
        requires
            old(self).ly < 255,
        ensures
            *final(self) == old(self).ly_incremented().0,
            r@ == old(self).ly_incremented().1,
    {
        let mut interrupts: Vec<Interrupts> = Vec::new();
        self.ly = self.ly + 1;
        if self.ly == self.lcd.lyc {
            self.lcd.lcds_lyc_set(true);
            if self.lcd.lcds_stat_int(StatSrc::LYC) {
                interrupts.push(Interrupts::LCDSTART);
            }
        } else {
            self.lcd.lcds_lyc_set(false);
        }
        proof {
            assert(interrupts@ =~= old(self).ly_incremented().1);
        }
        interrupts
    }

    fn ppu_mode_oam(&mut self)
        ensures
            *final(self) == (if old(self).line_ticks >= 80 {
                PPU { lcd: old(self).lcd.with_mode(LcdMode::Transfer), ..*old(self) }
            } else {
                *old(self)
            }),
    {
        if self.line_ticks >= 80 {
            self.lcd.lcds_mode_set(LcdMode::Transfer);
        }
    }

    fn ppu_mode_xfer(&mut self)
        ensures
            *final(self) == (if old(self).line_ticks >= 80 + 172 {
                PPU { lcd: old(self).lcd.with_mode(LcdMode::HBlank), ..*old(self) }
            } else {
                *old(self)
            }),
    {
        if self.line_ticks >= 80 + 172 {
            self.lcd.lcds_mode_set(LcdMode::HBlank);
        }
    }

    fn ppu_mode_vblank(&mut self) -> (r: Vec<Interrupts>)
        requires
            old(self).ly < 255,
        ensures
            (*final(self), r@) == old(self).vblank_stepped(),
    {
        if self.line_ticks >= TICKS_PER_LINE {
            let interrupts = self.increment_ly();
            if self.ly >= LINES_PER_FRAME {
                self.lcd.lcds_mode_set(LcdMode::OAM);
                self.ly = 0;
            }
            self.line_ticks = 0;
            interrupts
        } else {
            Vec::new()
        }
    }

    fn ppu_mode_hblank(&mut self) -> (r: Vec<Interrupts>)
        requires
            old(self).ly < 255,
            old(self).current_frame < u32::MAX,
        ensures
            (*final(self), r@) == old(self).hblank_stepped(),
    {
        if self.line_ticks >= TICKS_PER_LINE {
            let mut interrupts = self.increment_ly();
            if self.ly >= YRES {
                self.lcd.lcds_mode_set(LcdMode::VBlank);
                interrupts.push(Interrupts::VBLANK);
                if self.lcd.lcds_stat_int(StatSrc::VBlank) {
                    interrupts.push(Interrupts::LCDSTART);
                }
                self.current_frame = self.current_frame + 1;
            } else {
                self.lcd.lcds_mode_set(LcdMode::OAM);
            }
            self.line_ticks = 0;
            proof {
                assert(interrupts@ =~= old(self).hblank_stepped().1);
            }
            interrupts
        } else {
            Vec::new()
        }
    }

    /// Per-dot work of the PPU: advances the line counter and the mode state machine and
    /// returns the interrupts to raise. A completed frame shows as a new `current_frame`.
    pub fn ppu_tick(&mut self) -> (r: Vec<Interrupts>)
        requires
            old(self).can_tick(),
        ensures
            *final(self) == old(self).ticked().0,
            r@ == old(self).ticked().1,
    {
        self.line_ticks = self.line_ticks + 1;
        let mode = self.lcd.lcds_mode();
        match mode {
            LcdMode::OAM => {
                self.ppu_mode_oam();
                Vec::new()
            },
            LcdMode::Transfer => {
                self.ppu_mode_xfer();
                Vec::new()
            },
            LcdMode::VBlank => self.ppu_mode_vblank(),
            LcdMode::HBlank => self.ppu_mode_hblank(),
        }
    }

    /// Copies the scanline counter into the LY register.
    pub fn update_lcd_ly(&mut self)
        ensures
            *final(self) == (PPU { lcd: LCD { ly: old(self).ly, ..old(self).lcd }, ..*old(self) }),
    {
        self.lcd.ly = self.ly;
    }

    pub fn ppu_oam_write(&mut self, address: u16, value: u8)
        requires
            oam_address_ok(address),
        ensures
            *final(self) == old(self).oam_written(address, value),
    {
        let mut address = address;
        if address >= 0xFE00 {
            address = address - 0xFE00;
        }
        let entry_index = (address / 4) as usize;
        let byte_index = (address % 4) as usize;
        let mut entry_bytes = self.oam_ram[entry_index].to_bytes();
        entry_bytes[byte_index] = value;
        let e = OAMEntry::from_bytes(entry_bytes);
        proof {
            assert(e == self.oam_ram@[entry_index as int].with_byte(byte_index as int, value));
        }
        self.oam_ram[entry_index] = e;
    }

    pub fn ppu_oam_read(&self, address: u16) -> (r: u8)
        requires
            oam_address_ok(address),
        ensures
            r == self.oam_at(address),
    {
        let mut address = address;
        if address >= 0xFE00 {
            address = address - 0xFE00;
        }
        let entry_index = (address / 4) as usize;
        let byte_index = (address % 4) as usize;
        let bytes = self.oam_ram[entry_index].to_bytes();
        bytes[byte_index]
    }

    pub fn ppu_vram_write(&mut self, address: u16, value: u8)
        requires
            0x8000 <= address < 0xA000,
        ensures
            *final(self) == old(self).vram_written(address, value),
    {
        self.vram[(address - 0x8000) as usize] = value;
    }

    pub fn ppu_vram_read(&self, address: u16) -> (r: u8)
        requires
            0x8000 <= address < 0xA000,
        ensures
            r == self.vram_at(address),
    {
        self.vram[(address - 0x8000) as usize]
    }
}

/// When LY advances, STAT's coincidence flag (bit 2) is set exactly when the new LY
/// equals LYC, the other STAT bits are kept, and the only interrupt raised is LCDSTART:
/// exactly when LY becomes LYC and STAT bit 6 (the LYC source) is set.
pub proof fn law_ly_coincidence(ppu: PPU)
    requires
        ppu.ly < 255,
    ensures
        ({
            let (q, ints) = ppu.ly_incremented();
            let hit = ppu.ly + 1 == ppu.lcd.lyc;
            &&& q.ly == ppu.ly + 1
            &&& q.lcd.lcds & 0x04 == (if hit { 0x04u8 } else { 0u8 })
            &&& q.lcd.lcds & 0xFB == ppu.lcd.lcds & 0xFB
            &&& ints.len() <= 1
            &&& forall|i: int| 0 <= i < ints.len() ==> ints[i] == Interrupts::LCDSTART
            &&& ints.contains(Interrupts::LCDSTART) == (hit && ppu.lcd.lcds & 0x40 != 0)
        }),
{
    let s = ppu.lcd.lcds;
    assert((s | (1u8 << 2u8)) & 0x04 == 0x04u8 && (s & !(1u8 << 2u8)) & 0x04 == 0u8 && (s | (1u8
        << 2u8)) & 0xFB == s & 0xFB && (s & !(1u8 << 2u8)) & 0xFB == s & 0xFB && ((s | (1u8 << 2u8))
        & 0x40 != 0) == (s & 0x40 != 0)) by (bit_vector);
    let (q, ints) = ppu.ly_incremented();
    if ints.len() > 0 {
        assert(ints[0] == Interrupts::LCDSTART);
    }
}

/// At the end of the last visible line (LY 143, 456 dots in) the PPU enters VBlank: LY
/// becomes 144, STAT's mode bits read 1, a frame is counted, and the interrupts raised
/// are, in order, LCDSTART when LY 144 equals LYC and STAT bit 6 is set, VBLANK, and
/// LCDSTART when STAT bit 4 (the VBlank source) is set.
pub proof fn law_vblank_entry(ppu: PPU)
    requires
        ppu.line_ticks >= 456,
        ppu.ly == 143,
    ensures
        ({
            let (q, ints) = ppu.hblank_stepped();
            let s = ppu.lcd.lcds;
            let hit = ppu.lcd.lyc == 144;
            &&& q.ly == 144
            &&& q.lcd.lcds & 3 == 1
            &&& q.line_ticks == 0
            &&& q.current_frame == (ppu.current_frame + 1) as u32
            &&& ints == (if hit && s & 0x40 != 0 {
                seq![Interrupts::LCDSTART]
            } else {
                seq![]
            }).push(Interrupts::VBLANK) + (if s & 0x10 != 0 {
                seq![Interrupts::LCDSTART]
            } else {
                seq![]
            })
        }),
{
    law_ly_coincidence(ppu);
    let (q0, ints0) = ppu.ly_incremented();
    let x = q0.lcd.lcds;
    let s = ppu.lcd.lcds;
    assert(((x & !3u8) | 1u8) & 3 == 1 && ((x & !3u8) | 1u8) & 0x10 == x & 0x10 && x & 0x10 == s
        & 0x10 && x & 0x40 == s & 0x40) by (bit_vector)
        requires
            x & 0xFB == s & 0xFB,
    ;
    assert(ints0 == (if ppu.lcd.lyc == 144 && s & 0x40 != 0 {
        seq![Interrupts::LCDSTART]
    } else {
        seq![]
    }));
}

} // verus!
