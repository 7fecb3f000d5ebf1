//! The block-glyph text renderer.
//!
//! [`Ascii`] paints a short lower-cased string as large 5x5 glyphs from
//! the bitmap font, one block per character with a 3-cell gap. Set bits
//! render as blank cells with foreground and background swapped, so the
//! glyph appears as solid blocks. If the target area is too small for the
//! glyph blocks, the text falls back to plain centered text.

use vstd::prelude::*;

use crate::buffer::{patched, Buffer, Cell, Color, Rect, Style};
use crate::font;

verus! {

/// The ASCII-lower-cased counterpart of a character.
pub open spec fn lower_char(c: char) -> char {
    if 'A' <= c <= 'Z' {
        ((c as u8) + 32) as char
    } else {
        c
    }
}

/// A text, ASCII-lower-cased character by character.
pub open spec fn lowered(s: Seq<char>) -> Seq<char> {
    Seq::new(s.len(), |i: int| lower_char(s[i]))
}

/// Total width in cells of the glyph blocks for a `len`-character text:
/// 5 cells per glyph and a 3-cell gap between glyphs.
pub open spec fn required_width(len: int) -> int {
    if len == 0 {
        0
    } else {
        8 * len - 3
    }
}

/// The swapped-color block cell: a blank whose background is the style's
/// foreground.
pub open spec fn block_cell(style: Style) -> Cell {
    Cell {
        symbol: ' ',
        fg: match style.bg {
            Some(c) => c,
            None => Color::Reset,
        },
        bg: match style.fg {
            Some(c) => c,
            None => Color::Reset,
        },
    }
}

/// Column where the glyph blocks start: the text centered in `area`.
pub open spec fn glyph_left(len: int, area: Rect) -> int {
    area.x + area.width as int / 2 - required_width(len) / 2
}

/// Row where the glyph blocks start: two rows above the middle.
pub open spec fn glyph_top(area: Rect) -> int {
    area.y + area.height as int / 2 - 2
}

/// Whether the glyph rendering of `text` paints the cell at `(x, y)`:
/// the cell lies in some glyph's 5x5 block and its bit in that glyph's
/// bitmap is set.
pub open spec fn glyph_painted(text: Seq<char>, area: Rect, x: int, y: int) -> bool {
    let gx = glyph_left(text.len() as int, area);
    let gy = glyph_top(area);
    &&& gy <= y < gy + 5
    &&& gx <= x < gx + required_width(text.len() as int)
    &&& (x - gx) % 8 < 5
    &&& font::glyph_bit(font::spec_glyph(text[(x - gx) / 8]), (y - gy) * 5 + (x - gx) % 8)
}

/// Whether the area is too small for the glyph blocks, so the text is
/// rendered as plain centered text instead.
pub open spec fn falls_back(len: int, area: Rect) -> bool {
    area.height < 5 || area.width < required_width(len)
}

/// Column where the plain-text fallback starts: the text centered in
/// `area`, truncated to the area's width.
pub open spec fn fallback_left(len: int, area: Rect) -> int {
    area.x + (area.width - vstd::math::min(len, area.width as int)) / 2
}

/// Render `text` as one line of plain centered text on the top row of
/// `area`, after styling the whole area.
pub fn fallback_text(text: &Vec<char>, style: Style, area: Rect, buf: &mut Buffer)
    requires
        old(buf).wf(),
        area.wf(),
        area.spec_within(old(buf).area),
    ensures
        final(buf).wf(),
        final(buf).area == old(buf).area,
        forall|x: int, y: int| #![trigger final(buf).cell_at(x, y)]
            old(buf).area.spec_contains(x, y) ==> final(buf).cell_at(x, y) == (
            if area.spec_contains(x, y) {
                if y == area.y && fallback_left(text@.len() as int, area) <= x < fallback_left(
                    text@.len() as int,
                    area,
                ) + vstd::math::min(text@.len() as int, area.width as int) {
                    Cell {
                        symbol: text@[x - fallback_left(text@.len() as int, area)],
                        ..patched(old(buf).cell_at(x, y), style)
                    }
                } else {
                    patched(old(buf).cell_at(x, y), style)
                }
            } else {
                old(buf).cell_at(x, y)
            }),
    {
        buf.set_style(area, style);
        if area.height == 0 || area.width == 0 {
            return ;
        }
        let tw: u16 = if text.len() < area.width as usize {
            text.len() as u16
        } else {
            area.width
        };
        let fx: u16 = area.x + (area.width - tw) / 2;
        let _end = buf.set_text(fx, area.y, text, tw, style);
    }

/// A text to be drawn as large block glyphs, with its style.
#[derive(Clone, Debug)]
pub struct Ascii {
    pub text: Vec<char>,
    pub style: Style,
}

impl Ascii {
    /// A renderer for `text`, lower-cased, with no style overrides.
    pub fn new(text: &str) -> (a: Ascii)
        ensures
            a.text@ == lowered(text@),
            a.style == (Style { fg: Option::<Color>::None, bg: Option::<Color>::None }),
    {
        let raw = crate::buffer::chars_of(text);
        let mut lower: Vec<char> = Vec::new();
        let mut i: usize = 0;
        while i < raw.len()
            invariant
                0 <= i <= raw@.len(),
                raw@ == text@,
                lower@.len() == i,
                forall|j: int| 0 <= j < i ==> lower@[j] == lower_char(text@[j]),
            decreases raw@.len() - i,
        {
            let c = raw[i];
            let lc: char = if c >= 'A' && c <= 'Z' {
                ((c as u8) + 32) as char
            } else {
                c
            };
            lower.push(lc);
            i = i + 1;
        }
        proof {
            assert(lower@ =~= lowered(text@));
        }
        Ascii { text: lower, style: Style { fg: None, bg: None } }
    }

    /// Replace the style.
    pub fn style(self, style: Style) -> (a: Ascii)
        ensures
            a.text == self.text,
            a.style == style,
    {
        Ascii { text: self.text, style }
    }

    /// Render the text into `buf` within `area`.
    ///
    /// The whole area takes the style; then, if the area holds the glyph
    /// blocks, each set glyph bit paints a swapped-color block cell, or
    /// else the text is drawn as plain centered text on the top row.
    pub fn render(self, area: Rect, buf: &mut Buffer)
        requires
            old(buf).wf(),
            area.wf(),
            area.spec_within(old(buf).area),
        ensures
            final(buf).wf(),
            final(buf).area == old(buf).area,
            !falls_back(self.text@.len() as int, area) ==> forall|x: int, y: int|
                #![trigger final(buf).cell_at(x, y)]
                old(buf).area.spec_contains(x, y) ==> final(buf).cell_at(x, y) == (
                if glyph_painted(self.text@, area, x, y) {
                    block_cell(self.style)
                } else if area.spec_contains(x, y) {
                    patched(old(buf).cell_at(x, y), self.style)
                } else {
                    old(buf).cell_at(x, y)
                }),
            falls_back(self.text@.len() as int, area) ==> forall|x: int, y: int|
                #![trigger final(buf).cell_at(x, y)]
                old(buf).area.spec_contains(x, y) ==> final(buf).cell_at(x, y) == (
                if area.spec_contains(x, y) {
                    if y == area.y && fallback_left(self.text@.len() as int, area) <= x
                        < fallback_left(self.text@.len() as int, area) + vstd::math::min(
                        self.text@.len() as int,
                        area.width as int,
                    ) {
                        Cell {
                            symbol: self.text@[x - fallback_left(self.text@.len() as int, area)],
                            ..patched(old(buf).cell_at(x, y), self.style)
                        }
                    } else {
                        patched(old(buf).cell_at(x, y), self.style)
                    }
                } else {
                    old(buf).cell_at(x, y)
                }),
    {
        let len: usize = self.text.len();
        // The glyph blocks of an over-long text never fit a `u16`-wide
        // area, so such a text always falls back.
        let fits: bool = if len == 0 {
            area.height >= 5
        } else if len > 8192 {
            false
        } else {
            area.height >= 5 && (area.width as usize) >= 8 * len - 3
        };
        if !fits {
            fallback_text(&self.text, self.style, area, buf);
            return ;
        }
        buf.set_style(area, self.style);
        if len == 0 {
            return ;
        }
        let rw: u16 = (8 * len - 3) as u16;
        let gx: u16 = area.x + area.width / 2 - rw / 2;
        let gy: u16 = area.y + area.height / 2 - 2;
        proof {
            assert(gx == glyph_left(len as int, area));
            assert(gy == glyph_top(area));
            assert(gx + rw <= area.spec_right());
            assert(gy + 5 <= area.spec_bottom());
        }
        let block = Cell {
            symbol: ' ',
            fg: match self.style.bg {
                Some(c) => c,
                None => Color::Reset,
            },
            bg: match self.style.fg {
                Some(c) => c,
                None => Color::Reset,
            },
        };
        let ghost styled = *buf;
        let mut i: usize = 0;
        while i < len
            invariant
                buf.wf(),
                buf.area == old(buf).area,
                0 <= i <= len,
                len == self.text@.len(),
                len <= 8192,
                rw == required_width(len as int),
                gx == glyph_left(len as int, area),
                gy == glyph_top(area),
                area.x <= gx,
                gx + rw <= area.spec_right(),
                area.y <= gy,
                gy + 5 <= area.spec_bottom(),
                area.wf(),
                area.spec_within(old(buf).area),
                block == block_cell(self.style),
                forall|x: int, y: int| #![trigger styled.cell_at(x, y)]
                    old(buf).area.spec_contains(x, y) ==> styled.cell_at(x, y) == (
                    if area.spec_contains(x, y) {
                        patched(old(buf).cell_at(x, y), self.style)
                    } else {
                        old(buf).cell_at(x, y)
                    }),
                styled.area == old(buf).area,
                forall|x: int, y: int| #![trigger buf.cell_at(x, y)]
                    old(buf).area.spec_contains(x, y) ==> buf.cell_at(x, y) == (
                    if glyph_painted(self.text@, area, x, y) && (x - gx) / 8 < i {
                        block_cell(self.style)
                    } else {
                        styled.cell_at(x, y)
                    }),
            decreases len - i,
        {
            let sx: u16 = gx + (8 * i) as u16;
            let glyph = font::get_glyph(self.text[i]);
            let mut k: usize = 0;
            while k < 25
                invariant
                    buf.wf(),
                    buf.area == old(buf).area,
                    0 <= k <= 25,
                    0 <= i < len,
                    len == self.text@.len(),
                    len <= 8192,
                    rw == required_width(len as int),
                    gx == glyph_left(len as int, area),
                    gy == glyph_top(area),
                    area.x <= gx,
                    gx + rw <= area.spec_right(),
                    area.y <= gy,
                    gy + 5 <= area.spec_bottom(),
                    area.wf(),
                    area.spec_within(old(buf).area),
                    block == block_cell(self.style),
                    sx == gx + 8 * i,
                    glyph == font::spec_glyph(self.text@[i as int]),
                    forall|x: int, y: int| #![trigger styled.cell_at(x, y)]
                        old(buf).area.spec_contains(x, y) ==> styled.cell_at(x, y) == (
                        if area.spec_contains(x, y) {
                            patched(old(buf).cell_at(x, y), self.style)
                        } else {
                            old(buf).cell_at(x, y)
                        }),
                    styled.area == old(buf).area,
                    forall|x: int, y: int| #![trigger buf.cell_at(x, y)]
                        old(buf).area.spec_contains(x, y) ==> buf.cell_at(x, y) == (
                        if glyph_painted(self.text@, area, x, y) && ((x - gx) / 8 < i || ((x - gx)
                            / 8 == i && (y - gy) * 5 + (x - gx) % 8 < k)) {
                            block_cell(self.style)
                        } else {
                            styled.cell_at(x, y)
                        }),
                decreases 25 - k,
            {
                let mask: u32 = 1u32 << ((24 - k) as u32);
                let px: u16 = sx + (k % 5) as u16;
                let py: u16 = gy + (k / 5) as u16;
                let ghost pre = *buf;
                if glyph & mask != 0 {
                    buf.put(px, py, block);
                }
                proof {
                    assert(8 * i + (k % 5) < rw);
                    assert((px - gx) % 8 == k % 5 && (px - gx) / 8 == i as int) by (nonlinear_arith)
                        requires
                            px == gx + 8 * i + (k as int) % 5,
                            0 <= k < 25,
                            0 <= i,
                    ;
                    assert((py - gy) * 5 + (px - gx) % 8 == k as int);
                    assert(glyph_painted(self.text@, area, px as int, py as int) <==> (glyph & mask
                        != 0));
                    assert forall|x: int, y: int|
                        old(buf).area.spec_contains(x, y) implies #[trigger] buf.cell_at(x, y) == (
                    if glyph_painted(self.text@, area, x, y) && ((x - gx) / 8 < i || ((x - gx) / 8
                        == i && (y - gy) * 5 + (x - gx) % 8 < k + 1)) {
                        block_cell(self.style)
                    } else {
                        styled.cell_at(x, y)
                    }) by {
                        if x == px as int && y == py as int {
                        } else {
                            assert(buf.cell_at(x, y) == pre.cell_at(x, y));
                            if glyph_painted(self.text@, area, x, y) && (x - gx) / 8 == i && (y
                                - gy) * 5 + (x - gx) % 8 == k as int {
                                // The glyph position `(i, k)` determines the
                                // cell, so only `(px, py)` matches it.
                                assert((x - gx) % 8 < 5);
                                assert(x == gx + 8 * i + (x - gx) % 8) by (nonlinear_arith)
                                    requires
                                        (x - gx) / 8 == i,
                                        0 <= x - gx,
                                ;
                                assert((x - gx) % 8 == k % 5 && y - gy == k as int / 5)
                                    by (nonlinear_arith)
                                    requires
                                        (y - gy) * 5 + (x - gx) % 8 == k as int,
                                        0 <= (x - gx) % 8 < 5,
                                        glyph_top(area) <= y < glyph_top(area) + 5,
                                        gy == glyph_top(area),
                                        0 <= k < 25,
                                ;
                                assert(false);
                            }
                        }
                    }
                }
                k = k + 1;
            }
            i = i + 1;
        }
        proof {
            assert forall|x: int, y: int|
                old(buf).area.spec_contains(x, y) implies #[trigger] buf.cell_at(x, y) == (
            if glyph_painted(self.text@, area, x, y) {
                block_cell(self.style)
            } else if area.spec_contains(x, y) {
                patched(old(buf).cell_at(x, y), self.style)
            } else {
                old(buf).cell_at(x, y)
            }) by {
                if glyph_painted(self.text@, area, x, y) {
                    assert((x - gx) / 8 < len) by (nonlinear_arith)
                        requires
                            0 <= x - gx < 8 * len - 3,
                            (x - gx) % 8 < 5,
                            1 <= len,
                    ;
                }
            }
        }
    }
}

} // verus!
