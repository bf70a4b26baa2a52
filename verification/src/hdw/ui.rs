use vstd::prelude::*;

verus! {

/// Size of the main window.
pub const SCREEN_WIDTH: u32 = 800;
pub const SCREEN_HEIGHT: u32 = 600;

/// Size of the Game Boy screen.
pub const XRES: u32 = 160;
pub const YRES: u32 = 144;

/// Each Game Boy pixel is drawn as a SCALE x SCALE square.
pub const SCALE: u32 = 4;

/// The tile viewer: 16 x 24 tiles of 8 x 8 pixels, scaled.
pub const DEBUG_WINDOW_WIDTH: u32 = 512;
pub const DEBUG_WINDOW_HEIGHT: u32 = 768;

/// The four shades of the tile viewer, white to black, as ARGB.
pub open spec fn tile_shade(color: u8) -> u32 {
    if color == 0 {
        0xFFFFFFFF
    } else if color == 1 {
        0xFFAAAAAA
    } else if color == 2 {
        0xFF555555
    } else {
        0xFF000000
    }
}

/// Color index (0..3) of pixel `bit` (7 = leftmost) of a tile row stored as the two
/// bit planes `b1` (high bit) and `b2` (low bit).
pub fn tile_pixel(b1: u8, b2: u8, bit: u8) -> (color: u8)
    requires
        bit < 8,
    ensures
        color == 2 * ((b1 as int / pow2_u8(bit)) % 2) + (b2 as int / pow2_u8(bit)) % 2,
        color < 4,
{
    let mask: u8 = 1u8 << bit;
    let hi: u8 = if b1 & mask != 0 { 2 } else { 0 };
    let lo: u8 = if b2 & mask != 0 { 1 } else { 0 };
    proof {
        assert((b1 & (1u8 << bit) != 0) == ((b1 >> bit) & 1 == 1) && (b2 & (1u8 << bit) != 0) == ((b2
            >> bit) & 1 == 1)) by (bit_vector)
            requires
                bit < 8,
        ;
        lemma_shift_bit(b1, bit);
        lemma_shift_bit(b2, bit);
    }
    hi + lo
}

/// 2 to the power `k`, for a bit position of a byte.
pub open spec fn pow2_u8(k: u8) -> int {
    if k == 0 {
        1
    } else if k == 1 {
        2
    } else if k == 2 {
        4
    } else if k == 3 {
        8
    } else if k == 4 {
        16
    } else if k == 5 {
        32
    } else if k == 6 {
        64
    } else {
        128
    }
}

proof fn lemma_shift_bit(b: u8, k: u8)
    requires
        k < 8,
    ensures
        ((b >> k) & 1 == 1) == ((b as int / pow2_u8(k)) % 2 == 1),
{
    assert({
        &&& k == 0 ==> (b >> k) & 1 == b % 2
        &&& k == 1 ==> (b >> k) & 1 == (b / 2) % 2
        &&& k == 2 ==> (b >> k) & 1 == (b / 4) % 2
        &&& k == 3 ==> (b >> k) & 1 == (b / 8) % 2
        &&& k == 4 ==> (b >> k) & 1 == (b / 16) % 2
        &&& k == 5 ==> (b >> k) & 1 == (b / 32) % 2
        &&& k == 6 ==> (b >> k) & 1 == (b / 64) % 2
        &&& k == 7 ==> (b >> k) & 1 == (b / 128) % 2
    }) by (bit_vector);
}

/// The ARGB shade of a tile color index.
pub fn tile_color(color: u8) -> (r: u32)
    requires
        color < 4,
    ensures
        r == tile_shade(color),
{
    if color == 0 {
        0xFFFFFFFF
    } else if color == 1 {
        0xFFAAAAAA
    } else if color == 2 {
        0xFF555555
    } else {
        0xFF000000
    }
}

/// The (red, green, blue, alpha) bytes of an ARGB color.
pub fn argb_components(color: u32) -> (r: (u8, u8, u8, u8))
    ensures
        r.0 == (color / 0x10000) % 0x100,
        r.1 == (color / 0x100) % 0x100,
        r.2 == color % 0x100,
        r.3 == color / 0x1000000,
{
    assert((color >> 16) & 0xFF == (color / 0x10000) % 0x100 && (color >> 8) & 0xFF == (color / 0x100)
        % 0x100 && color & 0xFF == color % 0x100 && (color >> 24) & 0xFF == color / 0x1000000) by (bit_vector);
    (
        ((color >> 16) & 0xFF) as u8,
        ((color >> 8) & 0xFF) as u8,
        (color & 0xFF) as u8,
        ((color >> 24) & 0xFF) as u8,
    )
}

/// Frames counted over the current second and the count shown for the last one.
pub struct FpsCounter {
    pub fps_counter: u32,
    pub fps_display: u32,
    /// Millisecond clock reading at which the current second started.
    pub fps_timer: u64,
}

impl FpsCounter {
    pub fn new(now: u64) -> (r: Self)
        ensures
            r.fps_counter == 0 && r.fps_display == 0 && r.fps_timer == now,
    {
        FpsCounter { fps_counter: 0, fps_display: 0, fps_timer: now }
    }

    /// Counts a frame at clock reading `now` (milliseconds). Once more than a second has
    /// passed since the current second started, the count so far is shown and counting
    /// starts over.
    pub fn update_fps(&mut self, now: u64)
        requires
            now >= old(self).fps_timer,
            now - old(self).fps_timer > 1000 || old(self).fps_counter < u32::MAX,
        ensures
            now - old(self).fps_timer > 1000 ==> *final(self) == (FpsCounter {
                fps_display: old(self).fps_counter,
                fps_counter: 0,
                fps_timer: now,
            }),
            now - old(self).fps_timer <= 1000 ==> *final(self) == (FpsCounter {
                fps_counter: (old(self).fps_counter + 1) as u32,
                ..*old(self)
            }),
    {
        if now - self.fps_timer > 1000 {
            self.fps_display = self.fps_counter;
            self.fps_counter = 0;
            self.fps_timer = now;
        } else {
            self.fps_counter = self.fps_counter + 1;
        }
    }
}

/// The 5x7 font of the header bar: seven rows of five pixels, bit 4 the leftmost.
/// Letters are drawn as capitals; characters without a glyph show an outlined box.
pub open spec fn header_glyph_rows(ch: char) -> [u8; 7] {
    match ch {
        'A' | 'a' => [0x0E, 0x11, 0x11, 0x1F, 0x11, 0x11, 0x11],
        'B' | 'b' => [0x1E, 0x11, 0x11, 0x1E, 0x11, 0x11, 0x1E],
        'C' | 'c' => [0x0F, 0x10, 0x10, 0x10, 0x10, 0x10, 0x0F],
        'D' | 'd' => [0x1E, 0x11, 0x11, 0x11, 0x11, 0x11, 0x1E],
        'E' | 'e' => [0x1F, 0x10, 0x10, 0x1E, 0x10, 0x10, 0x1F],
        'F' | 'f' => [0x1F, 0x10, 0x10, 0x1E, 0x10, 0x10, 0x10],
        'G' | 'g' => [0x0F, 0x10, 0x10, 0x17, 0x11, 0x11, 0x0F],
        'H' | 'h' => [0x11, 0x11, 0x11, 0x1F, 0x11, 0x11, 0x11],
        'I' | 'i' => [0x0E, 0x04, 0x04, 0x04, 0x04, 0x04, 0x0E],
        'L' | 'l' => [0x10, 0x10, 0x10, 0x10, 0x10, 0x10, 0x1F],
        'M' | 'm' => [0x11, 0x1B, 0x15, 0x11, 0x11, 0x11, 0x11],
        'N' | 'n' => [0x11, 0x19, 0x15, 0x13, 0x11, 0x11, 0x11],
        'O' | 'o' => [0x0E, 0x11, 0x11, 0x11, 0x11, 0x11, 0x0E],
        'P' | 'p' => [0x1E, 0x11, 0x11, 0x1E, 0x10, 0x10, 0x10],
        'R' | 'r' => [0x1E, 0x11, 0x11, 0x1E, 0x14, 0x12, 0x11],
        'S' | 's' => [0x0F, 0x10, 0x10, 0x0E, 0x01, 0x01, 0x1E],
        'T' | 't' => [0x1F, 0x04, 0x04, 0x04, 0x04, 0x04, 0x04],
        'U' | 'u' => [0x11, 0x11, 0x11, 0x11, 0x11, 0x11, 0x0E],
        'V' | 'v' => [0x11, 0x11, 0x11, 0x11, 0x0A, 0x0A, 0x04],
        'W' | 'w' => [0x11, 0x11, 0x11, 0x11, 0x15, 0x1B, 0x11],
        'X' | 'x' => [0x11, 0x0A, 0x04, 0x04, 0x04, 0x0A, 0x11],
        'Y' | 'y' => [0x11, 0x11, 0x0A, 0x04, 0x04, 0x04, 0x04],
        'Z' | 'z' => [0x1F, 0x02, 0x04, 0x08, 0x10, 0x10, 0x1F],
        '0' => [0x0E, 0x11, 0x13, 0x15, 0x19, 0x11, 0x0E],
        '1' => [0x04, 0x0C, 0x04, 0x04, 0x04, 0x04, 0x0E],
        '2' => [0x0E, 0x11, 0x01, 0x06, 0x08, 0x10, 0x1F],
        '3' => [0x1E, 0x01, 0x01, 0x0E, 0x01, 0x01, 0x1E],
        '4' => [0x12, 0x12, 0x12, 0x1F, 0x02, 0x02, 0x02],
        '5' => [0x1F, 0x10, 0x10, 0x1E, 0x01, 0x01, 0x1E],
        '6' => [0x0F, 0x10, 0x10, 0x1E, 0x11, 0x11, 0x0E],
        '7' => [0x1F, 0x01, 0x02, 0x04, 0x08, 0x08, 0x08],
        '8' => [0x0E, 0x11, 0x11, 0x0E, 0x11, 0x11, 0x0E],
        '9' => [0x0E, 0x11, 0x11, 0x0F, 0x01, 0x01, 0x1E],
        ':' => [0x00, 0x0C, 0x0C, 0x00, 0x0C, 0x0C, 0x00],
        ' ' => [0x00, 0x00, 0x00, 0x00, 0x00, 0x00, 0x00],
        '\'' => [0x0C, 0x0C, 0x08, 0x00, 0x00, 0x00, 0x00],
        '.' => [0x00, 0x00, 0x00, 0x00, 0x00, 0x0C, 0x0C],
        _ => [0x0E, 0x11, 0x11, 0x11, 0x11, 0x11, 0x0E],
    }
}

/// `c` with an ASCII lower-case letter turned into its capital, as std's
/// `char::to_ascii_uppercase` does.
pub open spec fn ascii_upper(c: char) -> char {
    if 'a' <= c <= 'z' {
        ((c as int) - 32) as char
    } else {
        c
    }
}

/// The header bar draws every character as its ASCII capital would be drawn: the same
/// rows, hence the same lit cells wherever and at whatever scale it is drawn.
pub proof fn law_header_letters_as_capitals(c: char, x: i32, y: i32, scale: u32)
    ensures
        header_glyph_rows(c) == header_glyph_rows(ascii_upper(c)),
        glyph_cells_upto(header_glyph_rows(c), x, y, scale, 35) == glyph_cells_upto(
            header_glyph_rows(ascii_upper(c)),
            x,
            y,
            scale,
            35,
        ),
{
    if 'a' <= c <= 'z' {
        assert(c == 'a' || c == 'b' || c == 'c' || c == 'd' || c == 'e' || c == 'f' || c == 'g'
            || c == 'h' || c == 'i' || c == 'j' || c == 'k' || c == 'l' || c == 'm' || c == 'n'
            || c == 'o' || c == 'p' || c == 'q' || c == 'r' || c == 's' || c == 't' || c == 'u'
            || c == 'v' || c == 'w' || c == 'x' || c == 'y' || c == 'z');
    }
}

/// The rows of the header-bar glyph for `ch`.
pub fn header_glyph(ch: char) -> (r: [u8; 7])
    ensures
        r == header_glyph_rows(ch),
{
    match ch {
        'A' | 'a' => [0x0E, 0x11, 0x11, 0x1F, 0x11, 0x11, 0x11],
        'B' | 'b' => [0x1E, 0x11, 0x11, 0x1E, 0x11, 0x11, 0x1E],
        'C' | 'c' => [0x0F, 0x10, 0x10, 0x10, 0x10, 0x10, 0x0F],
        'D' | 'd' => [0x1E, 0x11, 0x11, 0x11, 0x11, 0x11, 0x1E],
        'E' | 'e' => [0x1F, 0x10, 0x10, 0x1E, 0x10, 0x10, 0x1F],
        'F' | 'f' => [0x1F, 0x10, 0x10, 0x1E, 0x10, 0x10, 0x10],
        'G' | 'g' => [0x0F, 0x10, 0x10, 0x17, 0x11, 0x11, 0x0F],
        'H' | 'h' => [0x11, 0x11, 0x11, 0x1F, 0x11, 0x11, 0x11],
        'I' | 'i' => [0x0E, 0x04, 0x04, 0x04, 0x04, 0x04, 0x0E],
        'L' | 'l' => [0x10, 0x10, 0x10, 0x10, 0x10, 0x10, 0x1F],
        'M' | 'm' => [0x11, 0x1B, 0x15, 0x11, 0x11, 0x11, 0x11],
        'N' | 'n' => [0x11, 0x19, 0x15, 0x13, 0x11, 0x11, 0x11],
        'O' | 'o' => [0x0E, 0x11, 0x11, 0x11, 0x11, 0x11, 0x0E],
        'P' | 'p' => [0x1E, 0x11, 0x11, 0x1E, 0x10, 0x10, 0x10],
        'R' | 'r' => [0x1E, 0x11, 0x11, 0x1E, 0x14, 0x12, 0x11],
        'S' | 's' => [0x0F, 0x10, 0x10, 0x0E, 0x01, 0x01, 0x1E],
        'T' | 't' => [0x1F, 0x04, 0x04, 0x04, 0x04, 0x04, 0x04],
        'U' | 'u' => [0x11, 0x11, 0x11, 0x11, 0x11, 0x11, 0x0E],
        'V' | 'v' => [0x11, 0x11, 0x11, 0x11, 0x0A, 0x0A, 0x04],
        'W' | 'w' => [0x11, 0x11, 0x11, 0x11, 0x15, 0x1B, 0x11],
        'X' | 'x' => [0x11, 0x0A, 0x04, 0x04, 0x04, 0x0A, 0x11],
        'Y' | 'y' => [0x11, 0x11, 0x0A, 0x04, 0x04, 0x04, 0x04],
        'Z' | 'z' => [0x1F, 0x02, 0x04, 0x08, 0x10, 0x10, 0x1F],
        '0' => [0x0E, 0x11, 0x13, 0x15, 0x19, 0x11, 0x0E],
        '1' => [0x04, 0x0C, 0x04, 0x04, 0x04, 0x04, 0x0E],
        '2' => [0x0E, 0x11, 0x01, 0x06, 0x08, 0x10, 0x1F],
        '3' => [0x1E, 0x01, 0x01, 0x0E, 0x01, 0x01, 0x1E],
        '4' => [0x12, 0x12, 0x12, 0x1F, 0x02, 0x02, 0x02],
        '5' => [0x1F, 0x10, 0x10, 0x1E, 0x01, 0x01, 0x1E],
        '6' => [0x0F, 0x10, 0x10, 0x1E, 0x11, 0x11, 0x0E],
        '7' => [0x1F, 0x01, 0x02, 0x04, 0x08, 0x08, 0x08],
        '8' => [0x0E, 0x11, 0x11, 0x0E, 0x11, 0x11, 0x0E],
        '9' => [0x0E, 0x11, 0x11, 0x0F, 0x01, 0x01, 0x1E],
        ':' => [0x00, 0x0C, 0x0C, 0x00, 0x0C, 0x0C, 0x00],
        ' ' => [0x00, 0x00, 0x00, 0x00, 0x00, 0x00, 0x00],
        '\'' => [0x0C, 0x0C, 0x08, 0x00, 0x00, 0x00, 0x00],
        '.' => [0x00, 0x00, 0x00, 0x00, 0x00, 0x0C, 0x0C],
        _ => [0x0E, 0x11, 0x11, 0x11, 0x11, 0x11, 0x0E],
    }
}

/// Whether column `col` (0 = left) of a glyph row is lit: bit 4 - col of the row.
pub open spec fn row_lit(row: u8, col: u8) -> bool {
    (row >> (4u8 - col)) & 1u8 == 1u8
}

/// The square of side `scale` that cell (`row`, `col`) of a glyph drawn at (x, y) covers,
/// as (x, y, width, height).
pub open spec fn cell_rect(x: i32, y: i32, scale: u32, row: int, col: int) -> (i32, i32, u32, u32) {
    ((x + col * scale) as i32, (y + row * scale) as i32, scale, scale)
}

/// The squares of the lit cells among the first `k` of a glyph's 35 cells, row by row
/// and left to right.
pub open spec fn glyph_cells_upto(rows: [u8; 7], x: i32, y: i32, scale: u32, k: nat) -> Seq<
    (i32, i32, u32, u32),
>
    decreases k,
{
    if k == 0 {
        seq![]
    } else {
        let prev = glyph_cells_upto(rows, x, y, scale, (k - 1) as nat);
        let row = (k - 1) / 5;
        let col = (k - 1) % 5;
        if row_lit(rows@[row], col as u8) {
            prev.push(cell_rect(x, y, scale, row, col))
        } else {
            prev
        }
    }
}

/// The squares to fill to draw a glyph at (x, y), each cell `scale` pixels wide.
pub fn glyph_cells(rows: [u8; 7], x: i32, y: i32, scale: u32) -> (r: Vec<(i32, i32, u32, u32)>)
    requires
        8 * scale <= i32::MAX,
        x + 4 * scale <= i32::MAX,
        y + 6 * scale <= i32::MAX,
    ensures
        r@ == glyph_cells_upto(rows, x, y, scale, 35),
{
    let mut out: Vec<(i32, i32, u32, u32)> = Vec::new();
    let mut k: u32 = 0;
    while k < 35
        invariant
            k <= 35,
            8 * scale <= i32::MAX,
            x + 4 * scale <= i32::MAX,
            y + 6 * scale <= i32::MAX,
            out@ == glyph_cells_upto(rows, x, y, scale, k as nat),
        decreases 35 - k,
    {
        let row = k / 5;
        let col = k % 5;
        let col8 = col as u8;
        if (rows[row as usize] >> (4 - col8)) & 1 == 1 {
            assert(col * scale <= 4 * scale) by (nonlinear_arith)
                requires
                    col <= 4,
            ;
            assert(row * scale <= 6 * scale) by (nonlinear_arith)
                requires
                    row <= 6,
            ;
            let px = x + (col * scale) as i32;
            let py = y + (row * scale) as i32;
            out.push((px, py, scale, scale));
        }
        k = k + 1;
    }
    out
}

/// Index in the PPU's frame buffer of pixel `x` of line `line`.
pub fn frame_index(x: u32, line: u32) -> (r: usize)
    requires
        x < XRES,
        line < YRES,
    ensures
        r == x + line * XRES,
{
    (x + line * XRES) as usize
}

/// The window cell of frame pixel `x` of line `line`: the frame, scaled by `SCALE`, is
/// centred in the window.
pub fn frame_cell(x: u32, line: u32) -> (r: (i32, i32, u32, u32))
    requires
        x < XRES,
        line < YRES,
    ensures
        r == (
            ((SCREEN_WIDTH - XRES * SCALE) / 2 + x * SCALE) as i32,
            ((SCREEN_HEIGHT - YRES * SCALE) / 2 + line * SCALE) as i32,
            SCALE,
            SCALE,
        ),
{
    let offset_x = (SCREEN_WIDTH - XRES * SCALE) / 2;
    let offset_y = (SCREEN_HEIGHT - YRES * SCALE) / 2;
    ((offset_x + x * SCALE) as i32, (offset_y + line * SCALE) as i32, SCALE, SCALE)
}

/// Where the tile viewer draws tile `n`: 16 tiles to a row, each 8 cells of `SCALE`
/// pixels square.
pub fn tile_origin(n: u16) -> (r: (i32, i32))
    requires
        n < 384,
    ensures
        r == (((n % 16) * 8 * SCALE) as i32, ((n / 16) * 8 * SCALE) as i32),
{
    let col: u32 = (n % 16) as u32;
    let row: u32 = (n / 16) as u32;
    ((col * 8 * SCALE) as i32, (row * 8 * SCALE) as i32)
}

/// The addresses of the two bit planes of row `row` of tile `n` in the tile data at
/// `start`, when both lie in VRAM.
pub fn tile_row_addresses(start: u16, n: u16, row: u16) -> (r: Option<(u16, u16)>)
    requires
        row < 8,
        start + 16 * n + 2 * row + 1 <= 0xFFFF,
    ensures
        ({
            let a = start + 16 * n + 2 * row;
            r == if 0x8000 <= a && a + 1 <= 0x9FFF {
                Some((a as u16, (a + 1) as u16))
            } else {
                None::<(u16, u16)>
            }
        }),
{
    let a = start + n * 16 + row * 2;
    if 0x8000 <= a && a + 1 <= 0x9FFF {
        Some((a, a + 1))
    } else {
        None
    }
}

/// The cell of pixel `bit` (7 the leftmost) of row `row` of a tile drawn at (x, y).
pub fn tile_cell(x: i32, y: i32, row: u32, bit: u8) -> (r: (i32, i32, u32, u32))
    requires
        bit < 8,
        row < 8,
        x + 7 * SCALE <= i32::MAX,
        y + 7 * SCALE <= i32::MAX,
    ensures
        r == ((x + (7 - bit) * SCALE) as i32, (y + row * SCALE) as i32, SCALE, SCALE),
{
    let dx: i32 = ((7 - bit) as u32 * SCALE) as i32;
    let dy: i32 = (row * SCALE) as i32;
    (x + dx, y + dy, SCALE, SCALE)
}

} // verus!
