//! Laying out text in the tile fonts of the HUD and menus.
use vstd::prelude::*;
use crate::reader::{signed16, to_signed16};
use crate::text::chars_of;

verus! {

pub const STARTALPHANUM: i16 = 2822;
pub const ENDALPHANUM: i16 = 2915;
pub const BIGALPHANUM: i16 = 2940;
pub const MINIFONT: i16 = 3072;
pub const THREE_DIGIT_BASE: i16 = 2472;

#[derive(Debug, Clone, Copy, PartialEq, Eq, Structural)]
pub enum DukeFont {
    BigRed,
    SmallBlue,
    Mini,
    DigitalNumbers,
}

#[derive(Debug, Clone, Copy, PartialEq, Eq, Structural)]
pub struct GlyphDrawCall {
    pub tile_id: i16,
    pub x: i32,
    pub y: i32,
}

#[derive(Debug)]
pub struct DukeFontRenderer;

/// How far a space moves the pen in each font.
pub open spec fn space_advance(font: DukeFont) -> int {
    match font {
        DukeFont::BigRed => 12,
        DukeFont::SmallBlue => 6,
        DukeFont::Mini => 4,
        DukeFont::DigitalNumbers => 8,
    }
}

/// The character code as the fonts read it: the low 16 bits, signed.
pub open spec fn char_code16(c: char) -> i16 {
    signed16(((c as u32) % 65536) as u16)
}

/// Tile and advance of a non-space character.
pub open spec fn glyph(font: DukeFont, c: char) -> (i16, int) {
    match font {
        DukeFont::BigRed => {
            let u = if 'a' <= c && c <= 'z' { ((c as u32) - 32) as char } else { c };
            if 'A' <= u && u <= 'Z' {
                ((BIGALPHANUM + (u as u32 - 65)) as i16, 14)
            } else if '0' <= u && u <= '9' {
                ((BIGALPHANUM + 52 + (u as u32 - 48)) as i16, 12)
            } else if u == ':' {
                ((BIGALPHANUM + 62) as i16, 8)
            } else if u == '/' {
                ((BIGALPHANUM + 63) as i16, 10)
            } else if u == '-' {
                ((BIGALPHANUM - 11) as i16, 10)
            } else {
                (BIGALPHANUM, 12)
            }
        },
        DukeFont::SmallBlue => {
            let code = char_code16(c);
            if 33 <= code && code <= 126 { ((STARTALPHANUM + code - 33) as i16, 8) } else { (STARTALPHANUM, 8) }
        },
        DukeFont::Mini => {
            let code = char_code16(c);
            if 33 <= code && code <= 126 { ((MINIFONT + code - 33) as i16, 5) } else { (MINIFONT, 5) }
        },
        DukeFont::DigitalNumbers => {
            if '0' <= c && c <= '9' {
                ((THREE_DIGIT_BASE + (c as u32 - 48)) as i16, 9)
            } else if c == '%' {
                ((THREE_DIGIT_BASE + 10) as i16, 9)
            } else {
                (THREE_DIGIT_BASE, 9)
            }
        },
    }
}

pub open spec fn advance(font: DukeFont, c: char) -> int {
    if c == ' ' { space_advance(font) } else { glyph(font, c).1 }
}

/// The pen position after the first `i` characters.
pub open spec fn pen_x(font: DukeFont, s: Seq<char>, x0: int, i: int) -> int
    decreases i,
{
    if i <= 0 { x0 } else { pen_x(font, s, x0, i - 1) + advance(font, s[i - 1]) }
}

/// The draw calls for the first `i` characters: one per non-space
/// character, at the pen position where it starts.
pub open spec fn layout(font: DukeFont, s: Seq<char>, x0: int, y: i32, i: int) -> Seq<GlyphDrawCall>
    decreases i,
{
    if i <= 0 {
        Seq::empty()
    } else if s[i - 1] == ' ' {
        layout(font, s, x0, y, i - 1)
    } else {
        layout(font, s, x0, y, i - 1).push(GlyphDrawCall {
            tile_id: glyph(font, s[i - 1]).0,
            x: pen_x(font, s, x0, i - 1) as i32,
            y,
        })
    }
}

proof fn lemma_pen_mono(font: DukeFont, s: Seq<char>, x0: int, i: int, j: int)
    requires
        0 <= i <= j,
    ensures
        pen_x(font, s, x0, i) <= pen_x(font, s, x0, j),
    decreases j - i,
{
    if i < j {
        lemma_pen_mono(font, s, x0, i, j - 1);
    }
}

fn glyph_of(font: DukeFont, ch: char) -> (r: (i16, i32))
    ensures
        r.0 == glyph(font, ch).0,
        r.1 == glyph(font, ch).1,
{
    match font {
        DukeFont::BigRed => {
            let upper = if 'a' <= ch && ch <= 'z' { ((ch as u32) - 32) as u8 as char } else { ch };
            if upper >= 'A' && upper <= 'Z' {
                (BIGALPHANUM + (upper as u32 - 65) as i16, 14)
            } else if upper >= '0' && upper <= '9' {
                (BIGALPHANUM + 52 + (upper as u32 - 48) as i16, 12)
            } else if upper == ':' {
                (BIGALPHANUM + 62, 8)
            } else if upper == '/' {
                (BIGALPHANUM + 63, 10)
            } else if upper == '-' {
                (BIGALPHANUM - 11, 10)
            } else {
                (BIGALPHANUM, 12)
            }
        },
        DukeFont::SmallBlue => {
            let code = to_signed16(((ch as u32) % 65536) as u16);
            if code >= 33 && code <= 126 {
                (STARTALPHANUM + (code - 33), 8)
            } else {
                (STARTALPHANUM, 8)
            }
        },
        DukeFont::Mini => {
            let code = to_signed16(((ch as u32) % 65536) as u16);
            if code >= 33 && code <= 126 {
                (MINIFONT + (code - 33), 5)
            } else {
                (MINIFONT, 5)
            }
        },
        DukeFont::DigitalNumbers => {
            if ch >= '0' && ch <= '9' {
                (THREE_DIGIT_BASE + (ch as u32 - 48) as i16, 9)
            } else if ch == '%' {
                (THREE_DIGIT_BASE + 10, 9)
            } else {
                (THREE_DIGIT_BASE, 9)
            }
        },
    }
}

impl DukeFontRenderer {
    /// One draw call per non-space character, left to right from
    /// (`start_x`, `start_y`), each character advancing the pen by its width.
    pub fn layout_text(font: DukeFont, text: &str, start_x: i32, start_y: i32) -> (calls: Vec<GlyphDrawCall>)
        requires
            pen_x(font, text@, start_x as int, text@.len() as int) <= i32::MAX,
        ensures
            calls@ == layout(font, text@, start_x as int, start_y, text@.len() as int),
    {
        let cs = chars_of(text);
        let n = cs.len();
        let mut calls: Vec<GlyphDrawCall> = Vec::new();
        let mut cur_x: i32 = start_x;
        let mut i: usize = 0;
        while i < n
            invariant
                n == cs@.len(),
                cs@ == text@,
                i <= n,
                pen_x(font, text@, start_x as int, n as int) <= i32::MAX,
                cur_x == pen_x(font, text@, start_x as int, i as int),
                calls@ == layout(font, text@, start_x as int, start_y, i as int),
            decreases n - i,
        {
            proof {
                lemma_pen_mono(font, text@, start_x as int, i + 1, n as int);
                lemma_pen_mono(font, text@, start_x as int, 0, i as int);
            }
            let ch = cs[i];
            if ch == ' ' {
                let adv: i32 = match font {
                    DukeFont::BigRed => 12,
                    DukeFont::SmallBlue => 6,
                    DukeFont::Mini => 4,
                    DukeFont::DigitalNumbers => 8,
                };
                cur_x = cur_x + adv;
            } else {
                let (tile_id, adv) = glyph_of(font, ch);
                calls.push(GlyphDrawCall { tile_id, x: cur_x, y: start_y });
                cur_x = cur_x + adv;
            }
            i += 1;
        }
        calls
    }
}

} // verus!
