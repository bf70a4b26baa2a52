use vstd::prelude::*;
use crate::hdw::ui::{ascii_upper, glyph_cells, glyph_cells_upto};
use crate::menu::game_scanner::{lowercase, to_lower};

verus! {

/// A character of the menu font: nothing, a solid block (the ASCII-art title), or seven
/// rows of five pixels, bit 4 the leftmost.
#[derive(Copy, Clone, PartialEq, Eq, Debug)]
pub enum Glyph {
    Blank,
    Block,
    Rows([u8; 7]),
}

/// The menu font. Letters are drawn as capitals; characters without a glyph show an
/// empty box.
pub open spec fn menu_glyph(ch: char) -> Glyph {
    match ch {
        ' ' => Glyph::Blank,
        '#' => Glyph::Block,
        'A' | 'a' => Glyph::Rows([0x0E, 0x11, 0x11, 0x1F, 0x11, 0x11, 0x11]),
        'B' | 'b' => Glyph::Rows([0x1E, 0x11, 0x11, 0x1E, 0x11, 0x11, 0x1E]),
        'C' | 'c' => Glyph::Rows([0x0E, 0x11, 0x10, 0x10, 0x10, 0x11, 0x0E]),
        'D' | 'd' => Glyph::Rows([0x1E, 0x11, 0x11, 0x11, 0x11, 0x11, 0x1E]),
        'E' | 'e' => Glyph::Rows([0x1F, 0x10, 0x10, 0x1E, 0x10, 0x10, 0x1F]),
        'F' | 'f' => Glyph::Rows([0x1F, 0x10, 0x10, 0x1E, 0x10, 0x10, 0x10]),
        'G' | 'g' => Glyph::Rows([0x0E, 0x11, 0x10, 0x17, 0x11, 0x11, 0x0E]),
        'H' | 'h' => Glyph::Rows([0x11, 0x11, 0x11, 0x1F, 0x11, 0x11, 0x11]),
        'I' | 'i' => Glyph::Rows([0x0E, 0x04, 0x04, 0x04, 0x04, 0x04, 0x0E]),
        'L' | 'l' => Glyph::Rows([0x10, 0x10, 0x10, 0x10, 0x10, 0x10, 0x1F]),
        'M' | 'm' => Glyph::Rows([0x11, 0x1B, 0x15, 0x11, 0x11, 0x11, 0x11]),
        'N' | 'n' => Glyph::Rows([0x11, 0x19, 0x15, 0x13, 0x11, 0x11, 0x11]),
        'O' | 'o' => Glyph::Rows([0x0E, 0x11, 0x11, 0x11, 0x11, 0x11, 0x0E]),
        'P' | 'p' => Glyph::Rows([0x1E, 0x11, 0x11, 0x1E, 0x10, 0x10, 0x10]),
        'R' | 'r' => Glyph::Rows([0x1E, 0x11, 0x11, 0x1E, 0x14, 0x12, 0x11]),
        'S' | 's' => Glyph::Rows([0x0F, 0x10, 0x10, 0x0E, 0x01, 0x01, 0x1E]),
        'T' | 't' => Glyph::Rows([0x1F, 0x04, 0x04, 0x04, 0x04, 0x04, 0x04]),
        'U' | 'u' => Glyph::Rows([0x11, 0x11, 0x11, 0x11, 0x11, 0x11, 0x0E]),
        'Y' | 'y' => Glyph::Rows([0x11, 0x11, 0x0A, 0x04, 0x04, 0x04, 0x04]),
        'W' | 'w' => Glyph::Rows([0x11, 0x11, 0x11, 0x15, 0x15, 0x1B, 0x11]),
        'V' | 'v' => Glyph::Rows([0x11, 0x11, 0x11, 0x11, 0x0A, 0x0A, 0x04]),
        'K' | 'k' => Glyph::Rows([0x11, 0x12, 0x14, 0x18, 0x14, 0x12, 0x11]),
        'J' | 'j' => Glyph::Rows([0x01, 0x01, 0x01, 0x01, 0x11, 0x11, 0x0E]),
        'Q' | 'q' => Glyph::Rows([0x0E, 0x11, 0x11, 0x11, 0x15, 0x12, 0x0D]),
        'X' | 'x' => Glyph::Rows([0x11, 0x0A, 0x04, 0x04, 0x04, 0x0A, 0x11]),
        'Z' | 'z' => Glyph::Rows([0x1F, 0x02, 0x04, 0x08, 0x10, 0x10, 0x1F]),
        '0' => Glyph::Rows([0x0E, 0x11, 0x13, 0x15, 0x19, 0x11, 0x0E]),
        '1' => Glyph::Rows([0x04, 0x0C, 0x04, 0x04, 0x04, 0x04, 0x0E]),
        '2' => Glyph::Rows([0x0E, 0x11, 0x01, 0x02, 0x04, 0x08, 0x1F]),
        '3' => Glyph::Rows([0x1E, 0x01, 0x01, 0x0E, 0x01, 0x01, 0x1E]),
        '4' => Glyph::Rows([0x12, 0x12, 0x12, 0x1F, 0x02, 0x02, 0x02]),
        '5' => Glyph::Rows([0x1F, 0x10, 0x10, 0x1E, 0x01, 0x01, 0x1E]),
        '6' => Glyph::Rows([0x0F, 0x10, 0x10, 0x1E, 0x11, 0x11, 0x0E]),
        '7' => Glyph::Rows([0x1F, 0x01, 0x02, 0x04, 0x08, 0x08, 0x08]),
        '8' => Glyph::Rows([0x0E, 0x11, 0x11, 0x0E, 0x11, 0x11, 0x0E]),
        '9' => Glyph::Rows([0x0E, 0x11, 0x11, 0x0F, 0x01, 0x01, 0x1E]),
        '&' => Glyph::Rows([0x0C, 0x12, 0x12, 0x0C, 0x15, 0x12, 0x0D]),
        '>' => Glyph::Rows([0x10, 0x08, 0x04, 0x02, 0x04, 0x08, 0x10]),
        '<' => Glyph::Rows([0x01, 0x02, 0x04, 0x08, 0x04, 0x02, 0x01]),
        ':' => Glyph::Rows([0x00, 0x04, 0x00, 0x00, 0x00, 0x04, 0x00]),
        '.' => Glyph::Rows([0x00, 0x00, 0x00, 0x00, 0x00, 0x04, 0x00]),
        '!' => Glyph::Rows([0x04, 0x04, 0x04, 0x04, 0x04, 0x00, 0x04]),
        '?' => Glyph::Rows([0x0E, 0x11, 0x02, 0x04, 0x04, 0x00, 0x04]),
        '|' => Glyph::Rows([0x04, 0x04, 0x04, 0x04, 0x04, 0x04, 0x04]),
        '(' => Glyph::Rows([0x04, 0x08, 0x08, 0x08, 0x08, 0x08, 0x04]),
        ')' => Glyph::Rows([0x04, 0x02, 0x02, 0x02, 0x02, 0x02, 0x04]),
        '-' => Glyph::Rows([0x00, 0x00, 0x00, 0x1F, 0x00, 0x00, 0x00]),
        '▶' => Glyph::Rows([0x10, 0x18, 0x1C, 0x1E, 0x1C, 0x18, 0x10]),
        '↑' => Glyph::Rows([0x04, 0x0E, 0x15, 0x04, 0x04, 0x04, 0x04]),
        '↓' => Glyph::Rows([0x04, 0x04, 0x04, 0x04, 0x15, 0x0E, 0x04]),
        '🦀' => Glyph::Rows([0x15, 0x0E, 0x1F, 0x15, 0x1F, 0x0A, 0x11]),
        '@' => Glyph::Rows([0x0E, 0x11, 0x17, 0x15, 0x17, 0x10, 0x0F]),
        '"' => Glyph::Rows([0x0A, 0x0A, 0x00, 0x00, 0x00, 0x00, 0x00]),
        '\'' => Glyph::Rows([0x08, 0x08, 0x10, 0x00, 0x00, 0x00, 0x00]),
        '\\' => Glyph::Rows([0x10, 0x08, 0x04, 0x02, 0x01, 0x00, 0x00]),
        '/' => Glyph::Rows([0x01, 0x02, 0x04, 0x08, 0x10, 0x00, 0x00]),
        '`' => Glyph::Rows([0x08, 0x04, 0x00, 0x00, 0x00, 0x00, 0x00]),
        '_' => Glyph::Rows([0x00, 0x00, 0x00, 0x00, 0x00, 0x00, 0x1F]),
        '=' => Glyph::Rows([0x00, 0x00, 0x1F, 0x00, 0x1F, 0x00, 0x00]),
        _ => Glyph::Rows([0x1F, 0x11, 0x11, 0x11, 0x11, 0x11, 0x1F]),
    }
}


/// The menu draws every character as its ASCII capital would be drawn.
pub proof fn law_menu_letters_as_capitals(c: char)
    ensures
        menu_glyph(c) == menu_glyph(ascii_upper(c)),
{
    if 'a' <= c <= 'z' {
        assert(c == 'a' || c == 'b' || c == 'c' || c == 'd' || c == 'e' || c == 'f' || c == 'g'
            || c == 'h' || c == 'i' || c == 'j' || c == 'k' || c == 'l' || c == 'm' || c == 'n'
            || c == 'o' || c == 'p' || c == 'q' || c == 'r' || c == 's' || c == 't' || c == 'u'
            || c == 'v' || c == 'w' || c == 'x' || c == 'y' || c == 'z');
    }
}

/// Whether `c` is an ASCII letter or digit.
pub open spec fn is_ascii_alnum(c: char) -> bool {
    ||| 'A' <= c <= 'Z'
    ||| 'a' <= c <= 'z'
    ||| '0' <= c <= '9'
}

/// How a character of a game name appears in an image file name: letters in lower case,
/// digits as they are, anything else as '_'.
pub open spec fn image_char(c: char) -> char {
    if 'A' <= c <= 'Z' {
        ((c as u32) + 32) as char
    } else if is_ascii_alnum(c) {
        c
    } else {
        '_'
    }
}

pub open spec fn image_chars(s: Seq<char>) -> Seq<char> {
    s.map_values(|c: char| image_char(c))
}

/// `r` is `s` without its leading and trailing underscores.
pub open spec fn trimmed_underscores(s: Seq<char>, r: Seq<char>) -> bool {
    exists|a: int, b: int|
        {
            &&& 0 <= a <= b <= s.len()
            &&& r == s.subrange(a, b)
            &&& forall|i: int| 0 <= i < a ==> s[i] == '_'
            &&& forall|i: int| b <= i < s.len() ==> s[i] == '_'
            &&& a < b ==> s[a] != '_' && s[b - 1] != '_'
        }
}

/// The cleaned name of a game, under which its preview image is also looked for.
pub open spec fn image_name(s: Seq<char>) -> Seq<char> {
    choose|r: Seq<char>| trimmed_underscores(image_chars(s), r)
}

/// The extensions of the preview images, in the order they are tried.
pub open spec fn image_extensions() -> Seq<Seq<char>> {
    seq!["png"@, "jpg"@, "jpeg"@, "bmp"@, "gif"@]
}

/// Where the preview image of `name` with extension `ext` would be.
pub open spec fn image_path(name: Seq<char>, ext: Seq<char>) -> Seq<char> {
    "roms/imgs/"@ + name + "."@ + ext
}

proof fn lemma_trimmed_unique(s: Seq<char>, r1: Seq<char>, r2: Seq<char>)
    requires
        trimmed_underscores(s, r1),
        trimmed_underscores(s, r2),
    ensures
        r1 == r2,
{
    let (a1, b1) = choose|a: int, b: int|
        {
            &&& 0 <= a <= b <= s.len()
            &&& r1 == s.subrange(a, b)
            &&& forall|i: int| 0 <= i < a ==> s[i] == '_'
            &&& forall|i: int| b <= i < s.len() ==> s[i] == '_'
            &&& a < b ==> s[a] != '_' && s[b - 1] != '_'
        };
    let (a2, b2) = choose|a: int, b: int|
        {
            &&& 0 <= a <= b <= s.len()
            &&& r2 == s.subrange(a, b)
            &&& forall|i: int| 0 <= i < a ==> s[i] == '_'
            &&& forall|i: int| b <= i < s.len() ==> s[i] == '_'
            &&& a < b ==> s[a] != '_' && s[b - 1] != '_'
        };
    if a1 < b1 {
        if a2 < b2 {
            assert(a1 == a2 && b1 == b2);
        } else {
            assert(s[a1] == '_');
        }
    } else if a2 < b2 {
        assert(s[a2] == '_');
    } else {
        assert(r1 =~= r2);
    }
}

/// Trusted: std's `String::push`, taken to leave the characters of `s` followed by `c`,
/// as its documentation says.
#[verifier::external_body]
fn push_char(s: &mut String, c: char)
    ensures
        final(s)@ == old(s)@.push(c),
{
    s.push(c);
}

fn image_extension(e: usize) -> (r: &'static str)
    requires
        e < 5,
    ensures
        r@ == image_extensions()[e as int],
{
    if e == 0 {
        "png"
    } else if e == 1 {
        "jpg"
    } else if e == 2 {
        "jpeg"
    } else if e == 3 {
        "bmp"
    } else {
        "gif"
    }
}

/// Appends the five image paths of `name`, one per extension.
fn push_image_paths(out: &mut Vec<String>, name: &str)
    ensures
        final(out)@.len() == old(out)@.len() + 5,
        forall|i: int| 0 <= i < old(out)@.len() ==> #[trigger] final(out)@[i] == old(out)@[i],
        forall|e: int|
            0 <= e < 5 ==> #[trigger] final(out)@[old(out)@.len() + e]@ == image_path(
                name@,
                image_extensions()[e],
            ),
{
    let ghost start = out@.len();
    let mut e: usize = 0;
    while e < 5
        invariant
            e <= 5,
            out@.len() == start + e,
            start == old(out)@.len(),
            forall|i: int| 0 <= i < start ==> #[trigger] out@[i] == old(out)@[i],
            forall|k: int| 0 <= k < e ==> #[trigger] out@[start + k]@ == image_path(name@, image_extensions()[k]),
        decreases 5 - e,
    {
        let mut p = String::new();
        p.append("roms/imgs/");
        p.append(name);
        p.append(".");
        p.append(image_extension(e));
        out.push(p);
        e = e + 1;
    }
}

fn is_alnum(c: char) -> (r: bool)
    ensures
        r == is_ascii_alnum(c),
{
    ('A' <= c && c <= 'Z') || ('a' <= c && c <= 'z') || ('0' <= c && c <= '9')
}

fn to_image_char(c: char) -> (r: char)
    ensures
        r == image_char(c),
{
    if 'A' <= c && c <= 'Z' {
        ((c as u8) + 32) as char
    } else if is_alnum(c) {
        c
    } else {
        '_'
    }
}

/// Draws the menu screens. The drawing itself belongs to the front end; the library
/// gives it the font.
pub struct MenuRenderer;

impl MenuRenderer {
    /// The rectangles to fill to draw `glyph` at (x, y) with cells of `scale` pixels: none
    /// for a blank, one 6 x 8 cell block for the solid block, else the lit cells.
    pub fn glyph_rects(glyph: Glyph, x: i32, y: i32, scale: u32) -> (r: Vec<(i32, i32, u32, u32)>)
        requires
            8 * scale <= i32::MAX,
            x + 4 * scale <= i32::MAX,
            y + 6 * scale <= i32::MAX,
        ensures
            r@ == match glyph {
                Glyph::Blank => Seq::<(i32, i32, u32, u32)>::empty(),
                Glyph::Block => seq![(x, y, (6 * scale) as u32, (8 * scale) as u32)],
                Glyph::Rows(rows) => glyph_cells_upto(rows, x, y, scale, 35),
            },
    {
        match glyph {
            Glyph::Blank => Vec::new(),
            Glyph::Block => {
                let mut v: Vec<(i32, i32, u32, u32)> = Vec::new();
                v.push((x, y, 6 * scale, 8 * scale));
                v
            },
            Glyph::Rows(rows) => glyph_cells(rows, x, y, scale),
        }
    }

    /// The name under which a game's preview image is looked for: letters lowered, other
    /// characters but digits turned into '_', and the underscores at both ends removed.
    pub fn clean_name_for_image(name: &str) -> (r: String)
        ensures
            trimmed_underscores(image_chars(name@), r@),
            r@ == image_name(name@),
    {
        let ghost m = image_chars(name@);
        let n = name.unicode_len();
        let mut start: usize = 0;
        while start < n && !is_alnum(name.get_char(start))
            invariant
                start <= n,
                n == name@.len(),
                forall|i: int| 0 <= i < start ==> !is_ascii_alnum(name@[i]),
            decreases n - start,
        {
            start = start + 1;
        }
        let mut end: usize = n;
        while end > start && !is_alnum(name.get_char(end - 1))
            invariant
                start <= end <= n,
                n == name@.len(),
                forall|i: int| end <= i < n ==> !is_ascii_alnum(name@[i]),
            decreases end - start,
        {
            end = end - 1;
        }
        let mut out = String::new();
        let mut i: usize = start;
        while i < end
            invariant
                start <= i <= end <= n,
                n == name@.len(),
                m == image_chars(name@),
                out@ == m.subrange(start as int, i as int),
            decreases end - i,
        {
            let c = to_image_char(name.get_char(i));
            push_char(&mut out, c);
            proof {
                assert(m.subrange(start as int, i + 1) =~= m.subrange(start as int, i as int).push(m[i as int]));
            }
            i = i + 1;
        }
        proof {
            assert(forall|i: int| 0 <= i < n ==> #[trigger] m[i] == image_char(name@[i]));
            assert(forall|i: int| 0 <= i < n ==> (#[trigger] m[i] == '_') == !is_ascii_alnum(name@[i]));
            assert(forall|i: int| 0 <= i < start ==> m[i] == '_');
            assert(forall|i: int| end <= i < n ==> m[i] == '_');
            if start < end {
                assert(m[start as int] != '_');
                assert(m[end - 1] != '_');
            }
            assert(out@ == m.subrange(start as int, end as int));
            assert(m.len() == n);
            assert(trimmed_underscores(m, out@));
            lemma_trimmed_unique(m, out@, image_name(name@));
        }
        out
    }

    /// The file names under which the preview image of a game is looked for, in order:
    /// its name, then its cleaned name (see `clean_name_for_image`), each with the
    /// extensions png, jpg, jpeg, bmp and gif.
    pub fn image_candidates(game_name: &str) -> (r: Vec<String>)
        ensures
            r@.len() == 10,
            forall|i: int|
                0 <= i < 5 ==> #[trigger] r@[i]@ == image_path(game_name@, image_extensions()[i]),
            forall|i: int|
                5 <= i < 10 ==> #[trigger] r@[i]@ == image_path(
                    image_name(game_name@),
                    image_extensions()[i - 5],
                ),
    {
        let clean = Self::clean_name_for_image(game_name);
        let mut out: Vec<String> = Vec::new();
        push_image_paths(&mut out, game_name);
        let ghost first = out@;
        push_image_paths(&mut out, clean.as_str());
        proof {
            assert forall|i: int| 0 <= i < 5 implies #[trigger] out@[i]@ == image_path(
                game_name@,
                image_extensions()[i],
            ) by {
                assert(out@[i] == first[i]);
                assert(first[0 + i]@ == image_path(game_name@, image_extensions()[i]));
            }
            assert forall|i: int| 5 <= i < 10 implies #[trigger] out@[i]@ == image_path(
                image_name(game_name@),
                image_extensions()[i - 5],
            ) by {
                assert(out@[5 + (i - 5)]@ == image_path(clean@, image_extensions()[i - 5]));
            }
        }
        out
    }

    /// Whether an image file whose name without extension is `stem` belongs to a game:
    /// `stem` equals, ignoring case, the game's name or its cleaned name.
    pub fn image_stem_matches(stem: &str, game_name: &str) -> (r: bool)
        ensures
            r == (lowercase(stem@) == lowercase(game_name@) || lowercase(stem@) == lowercase(
                image_name(game_name@),
            )),
    {
        let clean = Self::clean_name_for_image(game_name);
        let stem_lower = to_lower(stem);
        let name_lower = to_lower(game_name);
        let clean_lower = to_lower(clean.as_str());
        Self::lowered_names_match(&stem_lower, &name_lower, &clean_lower)
    }

    /// Whether a lower-cased file stem equals the lower-cased name or cleaned name.
    pub fn lowered_names_match(stem: &String, name: &String, clean: &String) -> (r: bool)
        ensures
            r == (stem@ == name@ || stem@ == clean@),
    {
        *stem == *name || *stem == *clean
    }

    /// The glyph that the menu draws for `ch`.
    pub fn glyph(ch: char) -> (r: Glyph)
        ensures
            r == menu_glyph(ch),
    {
        match ch {
            ' ' => Glyph::Blank,
            '#' => Glyph::Block,
            'A' | 'a' => Glyph::Rows([0x0E, 0x11, 0x11, 0x1F, 0x11, 0x11, 0x11]),
            'B' | 'b' => Glyph::Rows([0x1E, 0x11, 0x11, 0x1E, 0x11, 0x11, 0x1E]),
            'C' | 'c' => Glyph::Rows([0x0E, 0x11, 0x10, 0x10, 0x10, 0x11, 0x0E]),
            'D' | 'd' => Glyph::Rows([0x1E, 0x11, 0x11, 0x11, 0x11, 0x11, 0x1E]),
            'E' | 'e' => Glyph::Rows([0x1F, 0x10, 0x10, 0x1E, 0x10, 0x10, 0x1F]),
            'F' | 'f' => Glyph::Rows([0x1F, 0x10, 0x10, 0x1E, 0x10, 0x10, 0x10]),
            'G' | 'g' => Glyph::Rows([0x0E, 0x11, 0x10, 0x17, 0x11, 0x11, 0x0E]),
            'H' | 'h' => Glyph::Rows([0x11, 0x11, 0x11, 0x1F, 0x11, 0x11, 0x11]),
            'I' | 'i' => Glyph::Rows([0x0E, 0x04, 0x04, 0x04, 0x04, 0x04, 0x0E]),
            'L' | 'l' => Glyph::Rows([0x10, 0x10, 0x10, 0x10, 0x10, 0x10, 0x1F]),
            'M' | 'm' => Glyph::Rows([0x11, 0x1B, 0x15, 0x11, 0x11, 0x11, 0x11]),
            'N' | 'n' => Glyph::Rows([0x11, 0x19, 0x15, 0x13, 0x11, 0x11, 0x11]),
            'O' | 'o' => Glyph::Rows([0x0E, 0x11, 0x11, 0x11, 0x11, 0x11, 0x0E]),
            'P' | 'p' => Glyph::Rows([0x1E, 0x11, 0x11, 0x1E, 0x10, 0x10, 0x10]),
            'R' | 'r' => Glyph::Rows([0x1E, 0x11, 0x11, 0x1E, 0x14, 0x12, 0x11]),
            'S' | 's' => Glyph::Rows([0x0F, 0x10, 0x10, 0x0E, 0x01, 0x01, 0x1E]),
            'T' | 't' => Glyph::Rows([0x1F, 0x04, 0x04, 0x04, 0x04, 0x04, 0x04]),
            'U' | 'u' => Glyph::Rows([0x11, 0x11, 0x11, 0x11, 0x11, 0x11, 0x0E]),
            'Y' | 'y' => Glyph::Rows([0x11, 0x11, 0x0A, 0x04, 0x04, 0x04, 0x04]),
            'W' | 'w' => Glyph::Rows([0x11, 0x11, 0x11, 0x15, 0x15, 0x1B, 0x11]),
            'V' | 'v' => Glyph::Rows([0x11, 0x11, 0x11, 0x11, 0x0A, 0x0A, 0x04]),
            'K' | 'k' => Glyph::Rows([0x11, 0x12, 0x14, 0x18, 0x14, 0x12, 0x11]),
            'J' | 'j' => Glyph::Rows([0x01, 0x01, 0x01, 0x01, 0x11, 0x11, 0x0E]),
            'Q' | 'q' => Glyph::Rows([0x0E, 0x11, 0x11, 0x11, 0x15, 0x12, 0x0D]),
            'X' | 'x' => Glyph::Rows([0x11, 0x0A, 0x04, 0x04, 0x04, 0x0A, 0x11]),
            'Z' | 'z' => Glyph::Rows([0x1F, 0x02, 0x04, 0x08, 0x10, 0x10, 0x1F]),
            '0' => Glyph::Rows([0x0E, 0x11, 0x13, 0x15, 0x19, 0x11, 0x0E]),
            '1' => Glyph::Rows([0x04, 0x0C, 0x04, 0x04, 0x04, 0x04, 0x0E]),
            '2' => Glyph::Rows([0x0E, 0x11, 0x01, 0x02, 0x04, 0x08, 0x1F]),
            '3' => Glyph::Rows([0x1E, 0x01, 0x01, 0x0E, 0x01, 0x01, 0x1E]),
            '4' => Glyph::Rows([0x12, 0x12, 0x12, 0x1F, 0x02, 0x02, 0x02]),
            '5' => Glyph::Rows([0x1F, 0x10, 0x10, 0x1E, 0x01, 0x01, 0x1E]),
            '6' => Glyph::Rows([0x0F, 0x10, 0x10, 0x1E, 0x11, 0x11, 0x0E]),
            '7' => Glyph::Rows([0x1F, 0x01, 0x02, 0x04, 0x08, 0x08, 0x08]),
            '8' => Glyph::Rows([0x0E, 0x11, 0x11, 0x0E, 0x11, 0x11, 0x0E]),
            '9' => Glyph::Rows([0x0E, 0x11, 0x11, 0x0F, 0x01, 0x01, 0x1E]),
            '&' => Glyph::Rows([0x0C, 0x12, 0x12, 0x0C, 0x15, 0x12, 0x0D]),
            '>' => Glyph::Rows([0x10, 0x08, 0x04, 0x02, 0x04, 0x08, 0x10]),
            '<' => Glyph::Rows([0x01, 0x02, 0x04, 0x08, 0x04, 0x02, 0x01]),
            ':' => Glyph::Rows([0x00, 0x04, 0x00, 0x00, 0x00, 0x04, 0x00]),
            '.' => Glyph::Rows([0x00, 0x00, 0x00, 0x00, 0x00, 0x04, 0x00]),
            '!' => Glyph::Rows([0x04, 0x04, 0x04, 0x04, 0x04, 0x00, 0x04]),
            '?' => Glyph::Rows([0x0E, 0x11, 0x02, 0x04, 0x04, 0x00, 0x04]),
            '|' => Glyph::Rows([0x04, 0x04, 0x04, 0x04, 0x04, 0x04, 0x04]),
            '(' => Glyph::Rows([0x04, 0x08, 0x08, 0x08, 0x08, 0x08, 0x04]),
            ')' => Glyph::Rows([0x04, 0x02, 0x02, 0x02, 0x02, 0x02, 0x04]),
            '-' => Glyph::Rows([0x00, 0x00, 0x00, 0x1F, 0x00, 0x00, 0x00]),
            '▶' => Glyph::Rows([0x10, 0x18, 0x1C, 0x1E, 0x1C, 0x18, 0x10]),
            '↑' => Glyph::Rows([0x04, 0x0E, 0x15, 0x04, 0x04, 0x04, 0x04]),
            '↓' => Glyph::Rows([0x04, 0x04, 0x04, 0x04, 0x15, 0x0E, 0x04]),
            '🦀' => Glyph::Rows([0x15, 0x0E, 0x1F, 0x15, 0x1F, 0x0A, 0x11]),
            '@' => Glyph::Rows([0x0E, 0x11, 0x17, 0x15, 0x17, 0x10, 0x0F]),
            '"' => Glyph::Rows([0x0A, 0x0A, 0x00, 0x00, 0x00, 0x00, 0x00]),
            '\'' => Glyph::Rows([0x08, 0x08, 0x10, 0x00, 0x00, 0x00, 0x00]),
            '\\' => Glyph::Rows([0x10, 0x08, 0x04, 0x02, 0x01, 0x00, 0x00]),
            '/' => Glyph::Rows([0x01, 0x02, 0x04, 0x08, 0x10, 0x00, 0x00]),
            '`' => Glyph::Rows([0x08, 0x04, 0x00, 0x00, 0x00, 0x00, 0x00]),
            '_' => Glyph::Rows([0x00, 0x00, 0x00, 0x00, 0x00, 0x00, 0x1F]),
            '=' => Glyph::Rows([0x00, 0x00, 0x1F, 0x00, 0x1F, 0x00, 0x00]),
            _ => Glyph::Rows([0x1F, 0x11, 0x11, 0x11, 0x11, 0x11, 0x1F]),
        }
    }
}

} // verus!
