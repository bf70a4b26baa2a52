use vstd::prelude::*;
use vstd::array::spec_array_update;

verus! {

broadcast use vstd::array::group_array_axioms;

/// The four PPU modes reported in bits 1..0 of STAT.
#[derive(Copy, Clone, PartialEq, Eq, Structural, Debug)]
pub enum LcdMode {
    HBlank,
    VBlank,
    OAM,
    Transfer,
}

impl LcdMode {
    pub open spec fn bits(self) -> u8 {
        match self {
            LcdMode::HBlank => 0,
            LcdMode::VBlank => 1,
            LcdMode::OAM => 2,
            LcdMode::Transfer => 3,
        }
    }

    pub open spec fn of_bits(b: u8) -> LcdMode {
        if b & 3 == 0 {
            LcdMode::HBlank
        } else if b & 3 == 1 {
            LcdMode::VBlank
        } else if b & 3 == 2 {
            LcdMode::OAM
        } else {
            LcdMode::Transfer
        }
    }

    pub fn to_bits(self) -> (r: u8)
        ensures
            r == self.bits(),
    {
        match self {
            LcdMode::HBlank => 0,
            LcdMode::VBlank => 1,
            LcdMode::OAM => 2,
            LcdMode::Transfer => 3,
        }
    }
}

/// Sources of the STAT interrupt; each is enabled by one bit of STAT.
#[derive(Copy, Clone, PartialEq, Eq, Structural, Debug)]
pub enum StatSrc {
    HBlank,
    VBlank,
    OAM,
    LYC,
}

impl StatSrc {
    pub open spec fn mask(self) -> u8 {
        match self {
            StatSrc::HBlank => 0x08,
            StatSrc::VBlank => 0x10,
            StatSrc::OAM => 0x20,
            StatSrc::LYC => 0x40,
        }
    }

    pub fn bit(self) -> (r: u8)
        ensures
            r == self.mask(),
    {
        match self {
            StatSrc::HBlank => 0x08,
            StatSrc::VBlank => 0x10,
            StatSrc::OAM => 0x20,
            StatSrc::LYC => 0x40,
        }
    }
}

/// The LCD registers 0xFF40-0xFF4B and the colour palettes derived from them.
#[derive(Copy, Clone)]
pub struct LCD {
    pub lcdc: u8,
    pub lcds: u8,
    pub scy: u8,
    pub scx: u8,
    pub ly: u8,
    pub lyc: u8,
    pub dma: u8,
    pub bgp: u8,
    pub obp0: u8,
    pub obp1: u8,
    pub wy: u8,
    pub wx: u8,
    pub bg_colors: [u32; 4],
    pub sp1_colors: [u32; 4],
    pub sp2_colors: [u32; 4],
    pub default_colors: [u32; 4],
}

/// The four shades, from white to black.
pub open spec fn default_shades() -> Seq<u32> {
    seq![0xFFFFFFFFu32, 0xFFAAAAAAu32, 0xFF555555u32, 0xFF000000u32]
}

pub open spec fn bit_of(value: u8, n: u8) -> bool {
    value & (1u8 << n) != 0
}

impl LCD {
    /// The palette that `data` selects: colour i is shade (data >> 2i) & 3.
    pub open spec fn palette(self, base: [u32; 4], data: u8) -> [u32; 4] {
        spec_array_update(
            spec_array_update(
                spec_array_update(
                    spec_array_update(base, 0, self.default_colors@[(data & 3) as int]),
                    1,
                    self.default_colors@[((data >> 2) & 3) as int],
                ),
                2,
                self.default_colors@[((data >> 4) & 3) as int],
            ),
            3,
            self.default_colors@[((data >> 6) & 3) as int],
        )
    }

    /// Register value that a read of `address` returns.
    pub open spec fn read_spec(self, address: u16) -> u8 {
        let offset = address - 0xFF40;
        if offset == 0 {
            self.lcdc
        } else if offset == 1 {
            self.lcds
        } else if offset == 2 {
            self.scy
        } else if offset == 3 {
            self.scx
        } else if offset == 4 {
            self.ly
        } else if offset == 5 {
            self.lyc
        } else if offset == 6 {
            self.dma
        } else if offset == 7 {
            self.bgp
        } else if offset == 8 {
            self.obp0
        } else if offset == 9 {
            self.obp1
        } else if offset == 10 {
            self.wy
        } else if offset == 11 {
            self.wx
        } else {
            0xFF
        }
    }

    /// The LCD after a write of `value` to `address`.
    pub open spec fn written(self, address: u16, value: u8) -> LCD {
        let offset = address - 0xFF40;
        if offset == 0 {
            LCD { lcdc: value, ..self }
        } else if offset == 1 {
            LCD { lcds: value, ..self }
        } else if offset == 2 {
            LCD { scy: value, ..self }
        } else if offset == 3 {
            LCD { scx: value, ..self }
        } else if offset == 4 {
            LCD { ly: value, ..self }
        } else if offset == 5 {
            LCD { lyc: value, ..self }
        } else if offset == 6 {
            LCD { dma: value, ..self }
        } else if offset == 7 {
            LCD { bgp: value, bg_colors: self.palette(self.bg_colors, value), ..self }
        } else if offset == 8 {
            LCD { obp0: value, sp1_colors: self.palette(self.sp1_colors, value & 0b11111100), ..self }
        } else if offset == 9 {
            LCD { obp1: value, sp2_colors: self.palette(self.sp2_colors, value & 0b11111100), ..self }
        } else if offset == 10 {
            LCD { wy: value, ..self }
        } else if offset == 11 {
            LCD { wx: value, ..self }
        } else {
            self
        }
    }

    pub open spec fn mode(self) -> LcdMode {
        LcdMode::of_bits(self.lcds)
    }

    pub open spec fn with_mode(self, mode: LcdMode) -> LCD {
        LCD { lcds: (self.lcds & !3u8) | mode.bits(), ..self }
    }

    pub open spec fn with_lcds_bit(self, n: u8, set: bool) -> LCD {
        LCD {
            lcds: if set {
                self.lcds | (1u8 << n)
            } else {
                self.lcds & !(1u8 << n)
            },
            ..self
        }
    }

    /// The power-on registers, the STAT register aside: the palettes hold the four default
    /// shades.
    pub open spec fn is_power_on_but_stat(self) -> bool {
        &&& self.lcdc == 0x91 && self.scy == 0 && self.scx == 0 && self.ly == 0 && self.lyc == 0
        &&& self.dma == 0 && self.bgp == 0xFC && self.obp0 == 0xFF && self.obp1 == 0xFF
        &&& self.wy == 0 && self.wx == 0
        &&& self.default_colors@ == default_shades()
        &&& self.bg_colors@ == default_shades()
        &&& self.sp1_colors@ == default_shades()
        &&& self.sp2_colors@ == default_shades()
    }

    /// Power-on register values with the palettes set to the four default shades.
    pub fn new() -> (r: Self)
        ensures
            r.is_power_on_but_stat(),
            r.lcds == 0x85,
    {
        let mut lcd = LCD {
            lcdc: 0x91,
            lcds: 0x85,
            scy: 0,
            scx: 0,
            ly: 0,
            lyc: 0,
            dma: 0,
            bgp: 0xFC,
            obp0: 0xFF,
            obp1: 0xFF,
            wy: 0,
            wx: 0,
            bg_colors: [0; 4],
            sp1_colors: [0; 4],
            sp2_colors: [0; 4],
            default_colors: [0xFFFFFFFF, 0xFFAAAAAA, 0xFF555555, 0xFF000000],
        };
        let mut i: usize = 0;
        while i < 4
            invariant
                0 <= i <= 4,
                lcd.default_colors@ == default_shades(),
                forall|j: int| 0 <= j < i ==> lcd.bg_colors@[j] == default_shades()[j],
                forall|j: int| 0 <= j < i ==> lcd.sp1_colors@[j] == default_shades()[j],
                forall|j: int| 0 <= j < i ==> lcd.sp2_colors@[j] == default_shades()[j],
                lcd.lcdc == 0x91 && lcd.lcds == 0x85 && lcd.scy == 0 && lcd.scx == 0 && lcd.ly == 0
                    && lcd.lyc == 0 && lcd.dma == 0 && lcd.bgp == 0xFC && lcd.obp0 == 0xFF
                    && lcd.obp1 == 0xFF && lcd.wy == 0 && lcd.wx == 0,
            decreases 4 - i,
        {
            lcd.bg_colors[i] = lcd.default_colors[i];
            lcd.sp1_colors[i] = lcd.default_colors[i];
            lcd.sp2_colors[i] = lcd.default_colors[i];
            i = i + 1;
        }
        assert(lcd.bg_colors@ =~= default_shades());
        assert(lcd.sp1_colors@ =~= default_shades());
        assert(lcd.sp2_colors@ =~= default_shades());
        lcd
    }

    pub fn lcd_read(&self, address: u16) -> (r: u8)
        requires
            0xFF40 <= address,
        ensures
            r == self.read_spec(address),
    {
        let offset = address - 0xFF40;
        if offset == 0 {
            self.lcdc
        } else if offset == 1 {
            self.lcds
        } else if offset == 2 {
            self.scy
        } else if offset == 3 {
            self.scx
        } else if offset == 4 {
            self.ly
        } else if offset == 5 {
            self.lyc
        } else if offset == 6 {
            self.dma
        } else if offset == 7 {
            self.bgp
        } else if offset == 8 {
            self.obp0
        } else if offset == 9 {
            self.obp1
        } else if offset == 10 {
            self.wy
        } else if offset == 11 {
            self.wx
        } else {
            0xFF
        }
    }

    /// Writes a register; a write to DMA (0xFF46) returns the value that starts a transfer.
    pub fn lcd_write(&mut self, address: u16, value: u8) -> (r: Option<u8>)
        requires
            0xFF40 <= address,
        ensures
            *final(self) == old(self).written(address, value),
            r == (if address == 0xFF46 { Some(value) } else { None::<u8> }),
    {
        let offset = address - 0xFF40;
        if offset == 0 {
            self.lcdc = value;
            None
        } else if offset == 1 {
            self.lcds = value;
            None
        } else if offset == 2 {
            self.scy = value;
            None
        } else if offset == 3 {
            self.scx = value;
            None
        } else if offset == 4 {
            self.ly = value;
            None
        } else if offset == 5 {
            self.lyc = value;
            None
        } else if offset == 6 {
            self.dma = value;
            Some(value)
        } else if offset == 7 {
            self.bgp = value;
            self.update_palette(value, 0);
            None
        } else if offset == 8 {
            self.obp0 = value;
            self.update_palette(value & 0b11111100, 1);
            None
        } else if offset == 9 {
            self.obp1 = value;
            self.update_palette(value & 0b11111100, 2);
            None
        } else if offset == 10 {
            self.wy = value;
            None
        } else if offset == 11 {
            self.wx = value;
            None
        } else {
            None
        }
    }

    /// Recomputes palette `pal` (1: first object palette, 2: second, otherwise background).
    fn update_palette(&mut self, palette_data: u8, pal: u8)
        ensures
            pal == 1 ==> *final(self) == (LCD {
                sp1_colors: old(self).palette(old(self).sp1_colors, palette_data),
                ..*old(self)
            }),
            pal == 2 ==> *final(self) == (LCD {
                sp2_colors: old(self).palette(old(self).sp2_colors, palette_data),
                ..*old(self)
            }),
            pal != 1 && pal != 2 ==> *final(self) == (LCD {
                bg_colors: old(self).palette(old(self).bg_colors, palette_data),
                ..*old(self)
            }),
    {
        let mut p_colors = if pal == 1 {
            self.sp1_colors
        } else if pal == 2 {
            self.sp2_colors
        } else {
            self.bg_colors
        };
        assert((palette_data & 3) < 4 && ((palette_data >> 2) & 3) < 4 && ((palette_data >> 4) & 3)
            < 4 && ((palette_data >> 6) & 3) < 4) by (bit_vector);
        p_colors[0] = self.default_colors[(palette_data & 0b11) as usize];
        p_colors[1] = self.default_colors[((palette_data >> 2) & 0b11) as usize];
        p_colors[2] = self.default_colors[((palette_data >> 4) & 0b11) as usize];
        p_colors[3] = self.default_colors[((palette_data >> 6) & 0b11) as usize];
        if pal == 1 {
            self.sp1_colors = p_colors;
        } else if pal == 2 {
            self.sp2_colors = p_colors;
        } else {
            self.bg_colors = p_colors;
        }
    }

    fn bit(&self, value: u8, bit: u8) -> (r: bool)
        requires
            bit < 8,
        ensures
            r == bit_of(value, bit),
    {
        (value & (1u8 << bit)) != 0
    }

    /// BG and window enable (LCDC bit 0).
    pub fn lcdc_bgw_enable(&self) -> (r: bool)
        ensures
            r == bit_of(self.lcdc, 0),
    {
        self.bit(self.lcdc, 0)
    }

    /// Object enable (LCDC bit 1).
    pub fn lcdc_obj_enable(&self) -> (r: bool)
        ensures
            r == bit_of(self.lcdc, 1),
    {
        self.bit(self.lcdc, 1)
    }

    /// Object height: 16 when LCDC bit 2 is set, else 8.
    pub fn lcdc_obj_height(&self) -> (r: u8)
        ensures
            r == (if bit_of(self.lcdc, 2) { 16u8 } else { 8u8 }),
    {
        if self.bit(self.lcdc, 2) {
            16
        } else {
            8
        }
    }

    /// BG tile map area: 0x9C00 when LCDC bit 3 is set, else 0x9800.
    pub fn lcdc_bg_map_area(&self) -> (r: u16)
        ensures
            r == (if bit_of(self.lcdc, 3) { 0x9C00u16 } else { 0x9800u16 }),
    {
        if self.bit(self.lcdc, 3) {
            0x9C00
        } else {
            0x9800
        }
    }

    /// BG and window tile data area: 0x8000 when LCDC bit 4 is set, else 0x8800.
    pub fn lcdc_bgw_data_area(&self) -> (r: u16)
        ensures
            r == (if bit_of(self.lcdc, 4) { 0x8000u16 } else { 0x8800u16 }),
    {
        if self.bit(self.lcdc, 4) {
            0x8000
        } else {
            0x8800
        }
    }

    /// Window enable (LCDC bit 5).
    pub fn lcdc_win_enable(&self) -> (r: bool)
        ensures
            r == bit_of(self.lcdc, 5),
    {
        self.bit(self.lcdc, 5)
    }

    /// Window tile map area: 0x9C00 when LCDC bit 6 is set, else 0x9800.
    pub fn lcdc_win_map_area(&self) -> (r: u16)
        ensures
            r == (if bit_of(self.lcdc, 6) { 0x9C00u16 } else { 0x9800u16 }),
    {
        if self.bit(self.lcdc, 6) {
            0x9C00
        } else {
            0x9800
        }
    }

    /// LCD enable (LCDC bit 7).
    pub fn lcdc_lcd_enable(&self) -> (r: bool)
        ensures
            r == bit_of(self.lcdc, 7),
    {
        self.bit(self.lcdc, 7)
    }

    /// The mode in bits 1..0 of STAT.
    pub fn lcds_mode(&self) -> (r: LcdMode)
        ensures
            r == self.mode(),
    {
        let m = self.lcds & 0b11;
        if m == 0 {
            LcdMode::HBlank
        } else if m == 1 {
            LcdMode::VBlank
        } else if m == 2 {
            LcdMode::OAM
        } else {
            LcdMode::Transfer
        }
    }

    /// Replaces the mode bits of STAT; the other bits are kept.
    pub fn lcds_mode_set(&mut self, mode: LcdMode)
        ensures
            *final(self) == old(self).with_mode(mode),
            final(self).mode() == mode,
    {
        let b = mode.to_bits();
        let old_lcds = self.lcds;
        self.lcds = (self.lcds & !3u8) | b;
        assert(forall|x: u8, m: u8| m < 4 ==> ((x & !3u8) | m) & 3 == m) by (bit_vector);
    }

    /// The LY=LYC coincidence flag (STAT bit 2).
    pub fn lcds_lyc(&self) -> (r: bool)
        ensures
            r == bit_of(self.lcds, 2),
    {
        self.bit(self.lcds, 2)
    }

    pub fn lcds_lyc_set(&mut self, set: bool)
        ensures
            *final(self) == old(self).with_lcds_bit(2, set),
    {
        Self::bit_set(&mut self.lcds, 2, set);
    }

    /// Whether the STAT interrupt source `src` is enabled.
    pub fn lcds_stat_int(&self, src: StatSrc) -> (r: bool)
        ensures
            r == (self.lcds & src.mask() != 0),
    {
        (self.lcds & src.bit()) != 0
    }

    pub fn hblank_int_enabled(&self) -> (r: bool)
        ensures
            r == bit_of(self.lcds, 3),
    {
        assert(forall|x: u8| (x & 0x08 != 0) == (x & (1u8 << 3u8) != 0)) by (bit_vector);
        self.lcds_stat_int(StatSrc::HBlank)
    }

    pub fn vblank_int_enabled(&self) -> (r: bool)
        ensures
            r == bit_of(self.lcds, 4),
    {
        assert(forall|x: u8| (x & 0x10 != 0) == (x & (1u8 << 4u8) != 0)) by (bit_vector);
        self.lcds_stat_int(StatSrc::VBlank)
    }

    pub fn oam_int_enabled(&self) -> (r: bool)
        ensures
            r == bit_of(self.lcds, 5),
    {
        assert(forall|x: u8| (x & 0x20 != 0) == (x & (1u8 << 5u8) != 0)) by (bit_vector);
        self.lcds_stat_int(StatSrc::OAM)
    }

    pub fn lyc_int_enabled(&self) -> (r: bool)
        ensures
            r == bit_of(self.lcds, 6),
    {
        assert(forall|x: u8| (x & 0x40 != 0) == (x & (1u8 << 6u8) != 0)) by (bit_vector);
        self.lcds_stat_int(StatSrc::LYC)
    }

    pub fn set_hblank_int(&mut self, enable: bool)
        ensures
            *final(self) == old(self).with_lcds_bit(3, enable),
    {
        Self::bit_set(&mut self.lcds, 3, enable);
    }

    pub fn set_vblank_int(&mut self, enable: bool)
        ensures
            *final(self) == old(self).with_lcds_bit(4, enable),
    {
        Self::bit_set(&mut self.lcds, 4, enable);
    }

    pub fn set_oam_int(&mut self, enable: bool)
        ensures
            *final(self) == old(self).with_lcds_bit(5, enable),
    {
        Self::bit_set(&mut self.lcds, 5, enable);
    }

    pub fn set_lyc_int(&mut self, enable: bool)
        ensures
            *final(self) == old(self).with_lcds_bit(6, enable),
    {
        Self::bit_set(&mut self.lcds, 6, enable);
    }

    /// Sets the coincidence flag exactly when LY equals LYC.
    pub fn update_lyc_flag(&mut self)
        ensures
            *final(self) == old(self).with_lcds_bit(2, old(self).ly == old(self).lyc),
    {
        let lyc_equals_ly = self.ly == self.lyc;
        self.lcds_lyc_set(lyc_equals_ly);
    }

    fn bit_set(value: &mut u8, bit: u8, set: bool)
        requires
            bit < 8,
        ensures
            *final(value) == (if set {
                *old(value) | (1u8 << bit)
            } else {
                *old(value) & !(1u8 << bit)
            }),
    {
        if set {
            *value = *value | (1u8 << bit);
        } else {
            *value = *value & !(1u8 << bit);
        }
    }
}

/// Setting a STAT bit is seen by the matching query; clearing it likewise.
pub proof fn law_lcds_bit_set_then_read(lcd: LCD, n: u8, set: bool)
    requires
        n < 8,
    ensures
        bit_of(lcd.with_lcds_bit(n, set).lcds, n) == set,
        forall|m: u8| m < 8 && m != n ==> bit_of(lcd.with_lcds_bit(n, set).lcds, m) == bit_of(lcd.lcds, m),
{
    let x = lcd.lcds;
    assert(forall|x: u8, n: u8| n < 8 ==> ((x | (1u8 << n)) & (1u8 << n) != 0)) by (bit_vector);
    assert(forall|x: u8, n: u8| n < 8 ==> ((x & !(1u8 << n)) & (1u8 << n) == 0)) by (bit_vector);
    assert(forall|x: u8, n: u8, m: u8| n < 8 && m < 8 && m != n ==> (((x | (1u8 << n)) & (1u8 << m) != 0) == (x & (1u8 << m) != 0))) by (bit_vector);
    assert(forall|x: u8, n: u8, m: u8| n < 8 && m < 8 && m != n ==> (((x & !(1u8 << n)) & (1u8 << m) != 0) == (x & (1u8 << m) != 0))) by (bit_vector);
}

/// Setting the mode is seen by the mode query; the other STAT bits are kept.
pub proof fn law_mode_set_then_read(lcd: LCD, mode: LcdMode)
    ensures
        lcd.with_mode(mode).mode() == mode,
        lcd.with_mode(mode).lcds & 0xFC == lcd.lcds & 0xFC,
{
    assert(forall|x: u8, m: u8| m < 4 ==> ((x & !3u8) | m) & 3 == m) by (bit_vector);
    assert(forall|x: u8, m: u8| m < 4 ==> ((x & !3u8) | m) & 0xFC == x & 0xFC) by (bit_vector);
}

} // verus!
