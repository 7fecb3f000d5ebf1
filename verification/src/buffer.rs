//! The character-cell model the widgets draw into.
//!
//! A [`Buffer`] is a rectangular grid of [`Cell`]s in row-major order,
//! addressed by absolute terminal coordinates. Widgets receive a target
//! [`Rect`] inside the buffer and write symbols and colors cell by cell;
//! the surrounding application copies the finished grid to the terminal.

use vstd::prelude::*;
use vstd::string::StrSliceExecFns;

verus! {

/// The characters of a string slice, as the cell model consumes them.
pub fn chars_of(s: &str) -> (r: Vec<char>)
    ensures
        r@ == s@,
{
    let n: usize = s.unicode_len();
    let mut r: Vec<char> = Vec::new();
    let mut i: usize = 0;
    while i < n
        invariant
            0 <= i <= n,
            n == s@.len(),
            r@ == s@.take(i as int),
        decreases n - i,
    {
        let c = s.get_char(i);
        r.push(c);
        proof {
            assert(r@ =~= s@.take(i + 1));
        }
        i = i + 1;
    }
    proof {
        assert(r@ =~= s@);
    }
    r
}

/// A color token. The surrounding application maps each token to a real
/// terminal color; `Reset` stands for the terminal default.
#[derive(Copy, Clone, Debug, PartialEq, Eq)]
pub enum Color {
    Reset,
    Black,
    White,
    Green,
    Yellow,
    LightRed,
    LightBlue,
}

/// A style token: an optional foreground and background override.
/// Applying a style to a cell replaces only the colors it carries.
#[derive(Copy, Clone, Debug, PartialEq, Eq)]
pub struct Style {
    pub fg: Option<Color>,
    pub bg: Option<Color>,
}

impl Style {
    /// A style that overrides only the foreground.
    pub fn fg(color: Color) -> (s: Style)
        ensures
            s == (Style { fg: Some(color), bg: Option::<Color>::None }),
    {
        Style { fg: Some(color), bg: None }
    }
}

impl Default for Style {
    /// A style that overrides nothing.
    fn default() -> (s: Self)
        ensures
            s == (Style { fg: Option::<Color>::None, bg: Option::<Color>::None }),
    {
        Style { fg: None, bg: None }
    }
}

/// One character cell: a symbol and its two colors.
#[derive(Copy, Clone, Debug, PartialEq, Eq)]
pub struct Cell {
    pub symbol: char,
    pub fg: Color,
    pub bg: Color,
}

/// The cell `c` with the overrides of `s` applied.
pub open spec fn patched(c: Cell, s: Style) -> Cell {
    Cell {
        symbol: c.symbol,
        fg: match s.fg {
            Some(f) => f,
            None => c.fg,
        },
        bg: match s.bg {
            Some(b) => b,
            None => c.bg,
        },
    }
}

impl Cell {
    /// The cell `self` with the overrides of `s` applied.
    pub fn patch(self, s: Style) -> (c: Cell)
        ensures
            c == patched(self, s),
    {
        Cell {
            symbol: self.symbol,
            fg: match s.fg {
                Some(f) => f,
                None => self.fg,
            },
            bg: match s.bg {
                Some(b) => b,
                None => self.bg,
            },
        }
    }
}

impl Default for Cell {
    /// A blank cell: a space in the terminal default colors.
    fn default() -> (c: Self)
        ensures
            c == (Cell { symbol: ' ', fg: Color::Reset, bg: Color::Reset }),
    {
        Cell { symbol: ' ', fg: Color::Reset, bg: Color::Reset }
    }
}

/// A rectangle of character cells: position and extent in cell units.
#[derive(Copy, Clone, Debug, PartialEq, Eq)]
pub struct Rect {
    pub x: u16,
    pub y: u16,
    pub width: u16,
    pub height: u16,
}

impl Rect {
    /// The rectangle stays within the coordinate range.
    pub open spec fn wf(&self) -> bool {
        &&& self.x + self.width <= u16::MAX
        &&& self.y + self.height <= u16::MAX
    }

    /// First column past the right edge.
    pub open spec fn spec_right(&self) -> int {
        self.x + self.width
    }

    /// First row past the bottom edge.
    pub open spec fn spec_bottom(&self) -> int {
        self.y + self.height
    }

    /// Whether the cell at `(x, y)` lies inside the rectangle.
    pub open spec fn spec_contains(&self, x: int, y: int) -> bool {
        &&& self.x <= x < self.spec_right()
        &&& self.y <= y < self.spec_bottom()
    }

    /// Whether `self` lies entirely inside `outer`.
    pub open spec fn spec_within(&self, outer: Rect) -> bool {
        &&& outer.x <= self.x
        &&& self.spec_right() <= outer.spec_right()
        &&& outer.y <= self.y
        &&& self.spec_bottom() <= outer.spec_bottom()
    }

    /// First column past the right edge.
    pub fn right(&self) -> (r: u16)
        requires
            self.wf(),
        ensures
            r == self.spec_right(),
    {
        self.x + self.width
    }

    /// First row past the bottom edge.
    pub fn bottom(&self) -> (r: u16)
        requires
            self.wf(),
        ensures
            r == self.spec_bottom(),
    {
        self.y + self.height
    }
}

/// In a `w`-wide, `h`-high grid anchored at `(ax, ay)`, the row-major
/// index of an inside cell is in bounds.
proof fn lemma_row_major_bounds(ax: int, ay: int, w: int, h: int, x: int, y: int)
    requires
        ax <= x < ax + w,
        ay <= y < ay + h,
    ensures
        0 <= (y - ay) * w + (x - ax) < w * h,
{
    assert(0 <= (y - ay) * w + (x - ax) < w * h) by (nonlinear_arith)
        requires
            ax <= x < ax + w,
            ay <= y < ay + h,
    ;
}

/// Row-major indexing is injective on inside cells.
proof fn lemma_row_major_inj(ax: int, ay: int, w: int, h: int, x1: int, y1: int, x2: int, y2: int)
    requires
        ax <= x1 < ax + w,
        ay <= y1 < ay + h,
        ax <= x2 < ax + w,
        ay <= y2 < ay + h,
        (y1 - ay) * w + (x1 - ax) == (y2 - ay) * w + (x2 - ax),
    ensures
        x1 == x2 && y1 == y2,
{
    assert(x1 == x2 && y1 == y2) by (nonlinear_arith)
        requires
            ax <= x1 < ax + w,
            ay <= y1 < ay + h,
            ax <= x2 < ax + w,
            ay <= y2 < ay + h,
            (y1 - ay) * w + (x1 - ax) == (y2 - ay) * w + (x2 - ax),
    ;
}

/// A full grid of `u16`-bounded extent has fewer cells than `usize` can
/// count.
proof fn lemma_grid_fits(w: int, h: int)
    requires
        0 <= w <= u16::MAX,
        0 <= h <= u16::MAX,
    ensures
        w * h <= 0xfffe0001,
{
    assert(w * h <= 0xfffe0001) by (nonlinear_arith)
        requires
            0 <= w <= 0xffff,
            0 <= h <= 0xffff,
    ;
}

/// A rectangular grid of cells in row-major order.
#[derive(Clone, Debug)]
pub struct Buffer {
    pub area: Rect,
    pub cells: Vec<Cell>,
}

impl Buffer {
    /// The grid holds exactly one cell per coordinate of its area.
    pub open spec fn wf(&self) -> bool {
        &&& self.area.wf()
        &&& self.cells@.len() == self.area.width * self.area.height
    }

    /// Row-major index of the cell at `(x, y)`.
    pub open spec fn spec_idx(&self, x: int, y: int) -> int {
        (y - self.area.y) * self.area.width + (x - self.area.x)
    }

    /// The cell at `(x, y)`.
    pub open spec fn cell_at(&self, x: int, y: int) -> Cell {
        self.cells@[self.spec_idx(x, y)]
    }

    /// A buffer covering `area`, every cell blank.
    pub fn new(area: Rect) -> (b: Buffer)
        requires
            area.wf(),
        ensures
            b.wf(),
            b.area == area,
            forall|x: int, y: int|
                area.spec_contains(x, y) ==> b.cell_at(x, y) == (Cell {
                    symbol: ' ',
                    fg: Color::Reset,
                    bg: Color::Reset,
                }),
    {
        proof {
            lemma_grid_fits(area.width as int, area.height as int);
        }
        let n: usize = (area.width as usize) * (area.height as usize);
        let blank = Cell::default();
        let cells = vec![blank; n];
        let b = Buffer { area, cells };
        proof {
            assert forall|x: int, y: int| area.spec_contains(x, y) implies b.cell_at(x, y)
                == (Cell { symbol: ' ', fg: Color::Reset, bg: Color::Reset }) by {
                lemma_row_major_bounds(
                    area.x as int,
                    area.y as int,
                    area.width as int,
                    area.height as int,
                    x,
                    y,
                );
            }
        }
        b
    }

    /// Read the cell at `(x, y)`.
    pub fn get(&self, x: u16, y: u16) -> (c: &Cell)
        requires
            self.wf(),
            self.area.spec_contains(x as int, y as int),
        ensures
            *c == self.cell_at(x as int, y as int),
    {
        proof {
            lemma_row_major_bounds(
                self.area.x as int,
                self.area.y as int,
                self.area.width as int,
                self.area.height as int,
                x as int,
                y as int,
            );
            lemma_grid_fits(self.area.width as int, self.area.height as int);
        }
        let i: usize = ((y - self.area.y) as usize) * (self.area.width as usize) + ((x
            - self.area.x) as usize);
        &self.cells[i]
    }

    /// Replace the cell at `(x, y)`; every other cell is untouched.
    pub fn put(&mut self, x: u16, y: u16, cell: Cell)
        requires
            old(self).wf(),
            old(self).area.spec_contains(x as int, y as int),
        ensures
            final(self).wf(),
            final(self).area == old(self).area,
            final(self).cell_at(x as int, y as int) == cell,
            forall|x2: int, y2: int| #![trigger final(self).cell_at(x2, y2)]
                old(self).area.spec_contains(x2, y2) && !(x2 == x as int && y2 == y as int)
                    ==> final(self).cell_at(x2, y2) == old(self).cell_at(x2, y2),
    {
        proof {
            lemma_row_major_bounds(
                self.area.x as int,
                self.area.y as int,
                self.area.width as int,
                self.area.height as int,
                x as int,
                y as int,
            );
            lemma_grid_fits(self.area.width as int, self.area.height as int);
        }
        let i: usize = ((y - self.area.y) as usize) * (self.area.width as usize) + ((x
            - self.area.x) as usize);
        self.cells[i] = cell;
        proof {
            assert forall|x2: int, y2: int|
                old(self).area.spec_contains(x2, y2) && !(x2 == x as int && y2 == y as int) implies
                final(self).cell_at(x2, y2) == old(self).cell_at(x2, y2) by {
                lemma_row_major_bounds(
                    self.area.x as int,
                    self.area.y as int,
                    self.area.width as int,
                    self.area.height as int,
                    x2,
                    y2,
                );
                if self.spec_idx(x2, y2) == i as int {
                    lemma_row_major_inj(
                        self.area.x as int,
                        self.area.y as int,
                        self.area.width as int,
                        self.area.height as int,
                        x2,
                        y2,
                        x as int,
                        y as int,
                    );
                }
            }
        }
    }

    /// Apply `style` to every cell in the part of `rect` that lies inside
    /// the buffer; symbols are kept, cells outside `rect` are untouched.
    pub fn set_style(&mut self, rect: Rect, style: Style)
        requires
            old(self).wf(),
            rect.wf(),
        ensures
            final(self).wf(),
            final(self).area == old(self).area,
            forall|x: int, y: int| #![trigger final(self).cell_at(x, y)]
                old(self).area.spec_contains(x, y) ==> final(self).cell_at(x, y) == (
                if rect.spec_contains(x, y) {
                    patched(old(self).cell_at(x, y), style)
                } else {
                    old(self).cell_at(x, y)
                }),
    {
        let x0 = if rect.x > self.area.x { rect.x } else { self.area.x };
        let x1 = if rect.right() < self.area.right() { rect.right() } else { self.area.right() };
        let y0 = if rect.y > self.area.y { rect.y } else { self.area.y };
        let y1 = if rect.bottom() < self.area.bottom() {
            rect.bottom()
        } else {
            self.area.bottom()
        };
        let mut y = y0;
        while y < y1
            invariant
                self.wf(),
                self.area == old(self).area,
                rect.wf(),
                y0 <= y <= u16::MAX,
                x0 == vstd::math::max(rect.x as int, self.area.x as int),
                x1 == vstd::math::min(rect.spec_right(), self.area.spec_right()),
                y0 == vstd::math::max(rect.y as int, self.area.y as int),
                y1 == vstd::math::min(rect.spec_bottom(), self.area.spec_bottom()),
                forall|x2: int, y2: int| #![trigger self.cell_at(x2, y2)]
                    old(self).area.spec_contains(x2, y2) ==> self.cell_at(x2, y2) == (
                    if rect.spec_contains(x2, y2) && y2 < y {
                        patched(old(self).cell_at(x2, y2), style)
                    } else {
                        old(self).cell_at(x2, y2)
                    }),
            decreases y1 - y,
        {
            let mut x = x0;
            while x < x1
                invariant
                    self.wf(),
                    self.area == old(self).area,
                    rect.wf(),
                    x0 <= x <= u16::MAX,
                    y0 <= y < y1,
                    x0 == vstd::math::max(rect.x as int, self.area.x as int),
                    x1 == vstd::math::min(rect.spec_right(), self.area.spec_right()),
                    y0 == vstd::math::max(rect.y as int, self.area.y as int),
                    y1 == vstd::math::min(rect.spec_bottom(), self.area.spec_bottom()),
                    forall|x2: int, y2: int| #![trigger self.cell_at(x2, y2)]
                        old(self).area.spec_contains(x2, y2) ==> self.cell_at(x2, y2) == (
                        if rect.spec_contains(x2, y2) && (y2 < y || (y2 == y && x2 < x)) {
                            patched(old(self).cell_at(x2, y2), style)
                        } else {
                            old(self).cell_at(x2, y2)
                        }),
                decreases x1 - x,
            {
                let ghost pre = *self;
                let c = *self.get(x, y);
                let p = c.patch(style);
                self.put(x, y, p);
                proof {
                    assert forall|x2: int, y2: int|
                        old(self).area.spec_contains(x2, y2) implies #[trigger] self.cell_at(x2, y2)
                        == (if rect.spec_contains(x2, y2) && (y2 < y || (y2 == y && x2 < x + 1)) {
                        patched(old(self).cell_at(x2, y2), style)
                    } else {
                        old(self).cell_at(x2, y2)
                    }) by {
                        if x2 == x as int && y2 == y as int {
                        } else {
                            assert(self.cell_at(x2, y2) == pre.cell_at(x2, y2));
                        }
                    }
                }
                x = x + 1;
            }
            y = y + 1;
        }
    }

    /// How many characters of a `len`-character text fit when at most
    /// `max_width` may be used and `avail` cells remain in the row.
    pub open spec fn fitting(len: int, max_width: int, avail: int) -> int {
        vstd::math::min(len, vstd::math::min(max_width, avail))
    }

    /// Write `text` on row `y` starting at column `x`, truncated to
    /// `max_width` cells and to the buffer's right edge. Each written cell
    /// takes the character's symbol and the style's overrides; every other
    /// cell is untouched. Returns the column just past the written text.
    pub fn set_text(&mut self, x: u16, y: u16, text: &Vec<char>, max_width: u16, style: Style) -> (end_x:
        u16)
        requires
            old(self).wf(),
            old(self).area.y <= y < old(self).area.spec_bottom(),
            old(self).area.x <= x <= old(self).area.spec_right(),
        ensures
            final(self).wf(),
            final(self).area == old(self).area,
            end_x == x + Self::fitting(
                text@.len() as int,
                max_width as int,
                old(self).area.spec_right() - x,
            ),
            forall|cx: int| #![trigger final(self).cell_at(cx, y as int)]
                x <= cx < x + Self::fitting(
                    text@.len() as int,
                    max_width as int,
                    old(self).area.spec_right() - x,
                ) ==> final(self).cell_at(cx, y as int) == (Cell {
                    symbol: text@[cx - x],
                    ..patched(old(self).cell_at(cx, y as int), style)
                }),
            forall|x2: int, y2: int| #![trigger final(self).cell_at(x2, y2)]
                old(self).area.spec_contains(x2, y2) && !(y2 == y as int && x <= x2 < x
                    + Self::fitting(
                    text@.len() as int,
                    max_width as int,
                    old(self).area.spec_right() - x,
                )) ==> final(self).cell_at(x2, y2) == old(self).cell_at(x2, y2),
    {
        let avail: u16 = self.area.right() - x;
        let tw: usize = text.len();
        let mut w: usize = tw;
        if (max_width as usize) < w {
            w = max_width as usize;
        }
        if (avail as usize) < w {
            w = avail as usize;
        }
        assert(w == Self::fitting(text@.len() as int, max_width as int, avail as int));
        let mut i: usize = 0;
        while i < w
            invariant
                self.wf(),
                self.area == old(self).area,
                0 <= i <= w,
                w == Self::fitting(
                    text@.len() as int,
                    max_width as int,
                    old(self).area.spec_right() - x,
                ),
                w <= text@.len(),
                x + w <= old(self).area.spec_right(),
                old(self).area.y <= y < old(self).area.spec_bottom(),
                old(self).area.x <= x,
                forall|cx: int| #![trigger self.cell_at(cx, y as int)]
                    x <= cx < x + i ==> self.cell_at(cx, y as int) == (Cell {
                        symbol: text@[cx - x],
                        ..patched(old(self).cell_at(cx, y as int), style)
                    }),
                forall|x2: int, y2: int| #![trigger self.cell_at(x2, y2)]
                    old(self).area.spec_contains(x2, y2) && !(y2 == y as int && x <= x2 < x + i)
                        ==> self.cell_at(x2, y2) == old(self).cell_at(x2, y2),
            decreases w - i,
        {
            let ghost pre = *self;
            let ch = text[i];
            let xi: u16 = x + (i as u16);
            let cur = *self.get(xi, y);
            let p = cur.patch(style);
            self.put(xi, y, Cell { symbol: ch, fg: p.fg, bg: p.bg });
            proof {
                assert forall|cx: int| x <= cx < x + i + 1 implies #[trigger] self.cell_at(
                    cx,
                    y as int,
                ) == (Cell {
                    symbol: text@[cx - x],
                    ..patched(old(self).cell_at(cx, y as int), style)
                }) by {
                    if cx < x + i {
                        assert(self.cell_at(cx, y as int) == pre.cell_at(cx, y as int));
                    }
                }
            }
            i = i + 1;
        }
        x + (w as u16)
    }
}

} // verus!
