//! The circular progress gauge.
//!
//! [`CircularGauge`] draws an arc whose angular extent is proportional to
//! a ratio in `[0, 1]`, inscribed in the largest circle fitting the target
//! area, with a centered label. Cells are twice as tall as wide, so the
//! ring is an ellipse in cell coordinates: horizontal distances count
//! half. The ratio is an exact rational `num / den`; the angle of a cell
//! is measured with an integer-exact piecewise-rational turn fraction
//! (a diamond angle), which suits the coarseness of character cells.

use vstd::prelude::*;

use crate::buffer::{patched, Buffer, Cell, Color, Rect, Style};

verus! {

broadcast use vstd::seq::group_seq_axioms;

/// Why a gauge construction was rejected.
#[derive(Copy, Clone, Debug, PartialEq, Eq, Structural)]
pub enum GaugeError {
    /// A ratio was not a fraction in `[0, 1]` (numerator above the
    /// denominator, or a zero denominator).
    RatioOutOfRange,
    /// A percentage was above 100.
    PercentOutOfRange,
}

/// Center column of `area`.
pub open spec fn center_x(area: Rect) -> int {
    area.x + area.width as int / 2
}

/// Center row of `area`.
pub open spec fn center_y(area: Rect) -> int {
    area.y + area.height as int / 2
}

/// Ring radius for `area`: half the smaller extent, minus a margin of 2.
/// Negative means the area is too small to draw anything.
pub open spec fn ring_radius(area: Rect) -> int {
    vstd::math::min(area.width as int, area.height as int) / 2 - 2
}

/// Whether the cell offset `(dx, dy)` from the center lies in the ring:
/// its squared elliptic distance `(dx/2)^2 + dy^2` is within `radius` of
/// `radius^2`, all scaled by 4 to stay integral.
pub open spec fn in_ring(rad: int, dx: int, dy: int) -> bool {
    &&& 4 * rad * rad - 8 * rad <= dx * dx + 4 * dy * dy
    &&& dx * dx + 4 * dy * dy <= 4 * rad * rad + 8 * rad
}

/// Whether the direction `(o, a)` lies strictly before the fraction
/// `num / den` of a full turn. The turn starts at the downward direction
/// (`o == 0`, `a > 0`) and advances through `o > 0`. The fraction of the
/// direction is measured as a diamond angle: within each quarter turn it
/// interpolates linearly in `s / t`, where `t = |o| + |a|`.
pub open spec fn angle_lt(o: int, a: int, num: int, den: int) -> bool {
    if o == 0 && a == 0 {
        0 < num
    } else {
        let t = (if o >= 0 {
            o
        } else {
            -o
        }) + (if a >= 0 {
            a
        } else {
            -a
        });
        let q: int = if o >= 0 && a > 0 {
            0
        } else if o > 0 && a <= 0 {
            1
        } else if o <= 0 && a < 0 {
            2
        } else {
            3
        };
        let s: int = if o >= 0 && a > 0 {
            o
        } else if o > 0 && a <= 0 {
            -a
        } else if o <= 0 && a < 0 {
            -o
        } else {
            a
        };
        (q * t + s) * den < num * (4 * t)
    }
}

/// Whether the gauge with ratio `num / den` fills the cell at `(x, y)`:
/// the cell is in the ring and its angle is before the ratio's extent.
pub open spec fn fill_at(area: Rect, rad: int, num: int, den: int, x: int, y: int) -> bool {
    let dx = x - center_x(area);
    let dy = y - center_y(area);
    &&& in_ring(rad, dx, dy)
    &&& angle_lt(dx, 2 * dy, num, den)
}

/// The cell a filled ring position takes: a star in the gauge style's
/// colors.
pub open spec fn star_cell(gauge_style: Style) -> Cell {
    Cell {
        symbol: '*',
        fg: match gauge_style.fg {
            Some(c) => c,
            None => Color::Reset,
        },
        bg: match gauge_style.bg {
            Some(c) => c,
            None => Color::Reset,
        },
    }
}

/// The ratio rounded to a whole percentage, half away from zero.
pub open spec fn rounded_percent(num: int, den: int) -> int {
    (200 * num + den) / (2 * den)
}

/// The decimal digit `d` as a character.
pub open spec fn digit_char(d: int) -> char {
    ((48 + d) as u8) as char
}

/// The default label: the rounded percentage followed by a percent sign.
pub open spec fn percent_chars(num: int, den: int) -> Seq<char> {
    let v = rounded_percent(num, den);
    if v >= 100 {
        seq!['1', '0', '0', '%']
    } else if v >= 10 {
        seq![digit_char(v / 10), digit_char(v % 10), '%']
    } else {
        seq![digit_char(v), '%']
    }
}

/// A ratio within `[0, 1]` rounds to a percentage within `[0, 100]`.
pub proof fn lemma_rounded_percent_range(num: int, den: int)
    requires
        0 <= num <= den,
        1 <= den,
    ensures
        0 <= rounded_percent(num, den) <= 100,
{
    assert(0 <= (200 * num + den) / (2 * den) <= 100) by (nonlinear_arith)
        requires
            0 <= num <= den,
            1 <= den,
    ;
}

/// A larger ratio never unfills a cell: the filled arc grows with the
/// ratio.
pub proof fn lemma_fill_monotone(
    area: Rect,
    rad: int,
    n1: int,
    d1: int,
    n2: int,
    d2: int,
    x: int,
    y: int,
)
    requires
        1 <= d1,
        1 <= d2,
        n1 * d2 <= n2 * d1,
        0 <= n1,
        fill_at(area, rad, n1, d1, x, y),
    ensures
        fill_at(area, rad, n2, d2, x, y),
{
    let o = x - center_x(area);
    let a = 2 * (y - center_y(area));
    if o == 0 && a == 0 {
        assert(0 < n2) by (nonlinear_arith)
            requires
                0 < n1,
                n1 * d2 <= n2 * d1,
                1 <= d1,
                1 <= d2,
        ;
    } else {
        let t = (if o >= 0 {
            o
        } else {
            -o
        }) + (if a >= 0 {
            a
        } else {
            -a
        });
        let q: int = if o >= 0 && a > 0 {
            0
        } else if o > 0 && a <= 0 {
            1
        } else if o <= 0 && a < 0 {
            2
        } else {
            3
        };
        let s: int = if o >= 0 && a > 0 {
            o
        } else if o > 0 && a <= 0 {
            -a
        } else if o <= 0 && a < 0 {
            -o
        } else {
            a
        };
        assert((q * t + s) * d2 < n2 * (4 * t)) by (nonlinear_arith)
            requires
                (q * t + s) * d1 < n1 * (4 * t),
                n1 * d2 <= n2 * d1,
                1 <= d1,
                1 <= d2,
                0 <= q * t + s,
                0 <= t,
                0 <= n1,
        ;
    }
}

/// An arc proportional to `ratio_num / ratio_den`, with an optional
/// label and styles.
#[derive(Clone, Debug)]
pub struct CircularGauge {
    pub ratio_num: u16,
    pub ratio_den: u16,
    pub label: Option<Vec<char>>,
    pub label_style: Style,
    pub style: Style,
    pub gauge_style: Style,
}

impl CircularGauge {
    /// The ratio is a fraction in `[0, 1]`.
    pub open spec fn wf(&self) -> bool {
        &&& self.ratio_num <= self.ratio_den
        &&& self.ratio_den >= 1
    }

    /// The label drawn at the gauge's center: the explicit label if one
    /// was set, else the rounded percentage.
    pub open spec fn label_chars(&self) -> Seq<char> {
        match self.label {
            Some(l) => l@,
            None => percent_chars(self.ratio_num as int, self.ratio_den as int),
        }
    }

    /// Replace the ratio with `percent / 100`. A percentage above 100 is
    /// rejected and leaves no gauge.
    pub fn percent(self, percent: u8) -> (r: Result<CircularGauge, GaugeError>)
        ensures
            r is Ok <==> percent <= 100,
            r matches Ok(g) ==> g == (CircularGauge {
                ratio_num: percent as u16,
                ratio_den: 100u16,
                ..self
            }) && g.wf(),
            r matches Err(e) ==> e == GaugeError::PercentOutOfRange,
    {
        if percent <= 100 {
            Ok(CircularGauge { ratio_num: percent as u16, ratio_den: 100, ..self })
        } else {
            Err(GaugeError::PercentOutOfRange)
        }
    }

    /// Replace the ratio with `num / den`. A fraction above 1, or one
    /// with a zero denominator, is rejected and leaves no gauge.
    pub fn ratio(self, num: u16, den: u16) -> (r: Result<CircularGauge, GaugeError>)
        ensures
            r is Ok <==> (num <= den && den >= 1),
            r matches Ok(g) ==> g == (CircularGauge { ratio_num: num, ratio_den: den, ..self })
                && g.wf(),
            r matches Err(e) ==> e == GaugeError::RatioOutOfRange,
    {
        if num <= den && den >= 1 {
            Ok(CircularGauge { ratio_num: num, ratio_den: den, ..self })
        } else {
            Err(GaugeError::RatioOutOfRange)
        }
    }

    /// Replace the label and its style.
    pub fn label(self, text: &str, style: Style) -> (g: CircularGauge)
        ensures
            g.label matches Some(l) && l@ == text@,
            g.label_style == style,
            g.ratio_num == self.ratio_num,
            g.ratio_den == self.ratio_den,
            g.style == self.style,
            g.gauge_style == self.gauge_style,
    {
        CircularGauge { label: Some(crate::buffer::chars_of(text)), label_style: style, ..self }
    }

    /// Replace the base style.
    pub fn style(self, style: Style) -> (g: CircularGauge)
        ensures
            g == (CircularGauge { style, ..self }),
    {
        CircularGauge { style, ..self }
    }

    /// Replace the style of the filled arc.
    pub fn gauge_style(self, style: Style) -> (g: CircularGauge)
        ensures
            g == (CircularGauge { gauge_style: style, ..self }),
    {
        CircularGauge { gauge_style: style, ..self }
    }
}

impl Default for CircularGauge {
    /// An empty gauge: ratio zero, no label, no style overrides.
    fn default() -> (g: Self)
        ensures
            g.ratio_num == 0,
            g.ratio_den == 1,
            g.label is None,
            g.label_style == (Style { fg: Option::<Color>::None, bg: Option::<Color>::None }),
            g.style == g.label_style,
            g.gauge_style == g.label_style,
            g.wf(),
    {
        CircularGauge {
            ratio_num: 0,
            ratio_den: 1,
            label: None,
            label_style: Style { fg: None, bg: None },
            style: Style { fg: None, bg: None },
            gauge_style: Style { fg: None, bg: None },
        }
    }
}

/// Whether the direction `(o, a)` lies before `num / den` of a turn,
/// computed with exact integer arithmetic.
fn angle_lt_exec(o: i64, a: i64, num: u16, den: u16) -> (r: bool)
    requires
        -0x40000 <= o <= 0x40000,
        -0x40000 <= a <= 0x40000,
    ensures
        r == angle_lt(o as int, a as int, num as int, den as int),
{
    if o == 0 && a == 0 {
        return 0 < num;
    }
    let oa: i64 = if o >= 0 {
        o
    } else {
        -o
    };
    let aa: i64 = if a >= 0 {
        a
    } else {
        -a
    };
    let t: i64 = oa + aa;
    let q: i64 = if o >= 0 && a > 0 {
        0
    } else if o > 0 && a <= 0 {
        1
    } else if o <= 0 && a < 0 {
        2
    } else {
        3
    };
    let s: i64 = if o >= 0 && a > 0 {
        o
    } else if o > 0 && a <= 0 {
        -a
    } else if o <= 0 && a < 0 {
        -o
    } else {
        a
    };
    proof {
        assert(0 <= q * t + s <= 4 * t && (q * t + s) * den <= 0x200000 * 0xffff && num * (4 * t)
            <= 0xffff * 0x200000) by (nonlinear_arith)
            requires
                0 <= q <= 3,
                0 <= s <= t,
                0 <= t <= 0x80000,
                0 <= num <= 0xffff,
                0 <= den <= 0xffff,
        ;
    }
    (q * t + s) * (den as i64) < (num as i64) * (4 * t)
}

impl CircularGauge {
    /// Render the gauge into `buf` within `area`.
    ///
    /// The whole area takes the base style. If the area admits a positive
    /// radius, every ring cell whose angle lies before the ratio's extent
    /// becomes a star in the gauge style, and the label is drawn centered
    /// on the middle row, clipped to the ring's double-radius width; a
    /// too-small area is left with the base style only.
    #[verifier::rlimit(100)]
    pub fn render(self, area: Rect, buf: &mut Buffer)
        requires
            old(buf).wf(),
            area.wf(),
            area.spec_within(old(buf).area),
            self.wf(),
        ensures
            final(buf).wf(),
            final(buf).area == old(buf).area,
            ring_radius(area) < 0 ==> forall|x: int, y: int|
                #![trigger final(buf).cell_at(x, y)]
                old(buf).area.spec_contains(x, y) ==> final(buf).cell_at(x, y) == (
                if area.spec_contains(x, y) {
                    patched(old(buf).cell_at(x, y), self.style)
                } else {
                    old(buf).cell_at(x, y)
                }),
            ring_radius(area) >= 0 ==> forall|x: int, y: int|
                #![trigger final(buf).cell_at(x, y)]
                old(buf).area.spec_contains(x, y) ==> final(buf).cell_at(x, y) == (
                if area.spec_contains(x, y) {
                    if y == center_y(area) && Self::label_left(self.label_chars(), area) <= x
                        < Self::label_left(self.label_chars(), area) + Self::label_fit(
                        self.label_chars(),
                        area,
                    ) {
                        Cell {
                            symbol: self.label_chars()[x - Self::label_left(
                                self.label_chars(),
                                area,
                            )],
                            ..patched(
                                Self::ring_cell(
                                    &self,
                                    area,
                                    old(buf).cell_at(x, y),
                                    x,
                                    y,
                                ),
                                self.label_style,
                            )
                        }
                    } else {
                        Self::ring_cell(&self, area, old(buf).cell_at(x, y), x, y)
                    }
                } else {
                    old(buf).cell_at(x, y)
                }),
    {
        buf.set_style(area, self.style);
        let m: u16 = if area.width < area.height {
            area.width / 2
        } else {
            area.height / 2
        };
        if m < 2 {
            return ;
        }
        let rad: u16 = m - 2;
        let diam: u16 = 2 * rad;
        let cx: u16 = area.x + area.width / 2;
        let cy: u16 = area.y + area.height / 2;
        proof {
            assert(cx == center_x(area));
            assert(cy == center_y(area));
            assert(rad == ring_radius(area));
        }
        let ghost styled = *buf;
        // Fill the ring.
        let star = Cell {
            symbol: '*',
            fg: match self.gauge_style.fg {
                Some(c) => c,
                None => Color::Reset,
            },
            bg: match self.gauge_style.bg {
                Some(c) => c,
                None => Color::Reset,
            },
        };
        let y1 = area.bottom();
        let x1 = area.right();
        let mut y: u16 = area.y;
        while y < y1
            invariant
                buf.wf(),
                buf.area == old(buf).area,
                area.y <= y <= u16::MAX,
                y1 == area.spec_bottom(),
                x1 == area.spec_right(),
                area.wf(),
                area.spec_within(old(buf).area),
                rad == ring_radius(area),
                cx == center_x(area),
                cy == center_y(area),
                star == star_cell(self.gauge_style),
                styled.area == old(buf).area,
                self.wf(),
                forall|x2: int, y2: int| #![trigger styled.cell_at(x2, y2)]
                    old(buf).area.spec_contains(x2, y2) ==> styled.cell_at(x2, y2) == (
                    if area.spec_contains(x2, y2) {
                        patched(old(buf).cell_at(x2, y2), self.style)
                    } else {
                        old(buf).cell_at(x2, y2)
                    }),
                forall|x2: int, y2: int| #![trigger buf.cell_at(x2, y2)]
                    old(buf).area.spec_contains(x2, y2) ==> buf.cell_at(x2, y2) == (
                    if area.spec_contains(x2, y2) && y2 < y && fill_at(
                        area,
                        rad as int,
                        self.ratio_num as int,
                        self.ratio_den as int,
                        x2,
                        y2,
                    ) {
                        star_cell(self.gauge_style)
                    } else {
                        styled.cell_at(x2, y2)
                    }),
            decreases y1 - y,
        {
            let mut x: u16 = area.x;
            while x < x1
                invariant
                    buf.wf(),
                    buf.area == old(buf).area,
                    area.x <= x <= u16::MAX,
                    area.y <= y < area.spec_bottom(),
                    y1 == area.spec_bottom(),
                    x1 == area.spec_right(),
                    area.wf(),
                    area.spec_within(old(buf).area),
                    rad == ring_radius(area),
                    cx == center_x(area),
                    cy == center_y(area),
                    star == star_cell(self.gauge_style),
                    styled.area == old(buf).area,
                    self.wf(),
                    forall|x2: int, y2: int| #![trigger styled.cell_at(x2, y2)]
                        old(buf).area.spec_contains(x2, y2) ==> styled.cell_at(x2, y2) == (
                        if area.spec_contains(x2, y2) {
                            patched(old(buf).cell_at(x2, y2), self.style)
                        } else {
                            old(buf).cell_at(x2, y2)
                        }),
                    forall|x2: int, y2: int| #![trigger buf.cell_at(x2, y2)]
                        old(buf).area.spec_contains(x2, y2) ==> buf.cell_at(x2, y2) == (
                        if area.spec_contains(x2, y2) && (y2 < y || (y2 == y && x2 < x)) && fill_at(
                            area,
                            rad as int,
                            self.ratio_num as int,
                            self.ratio_den as int,
                            x2,
                            y2,
                        ) {
                            star_cell(self.gauge_style)
                        } else {
                            styled.cell_at(x2, y2)
                        }),
                decreases x1 - x,
            {
                let ghost pre = *buf;
                let dx: i64 = x as i64 - cx as i64;
                let dy: i64 = y as i64 - cy as i64;
                proof {
                    assert(0 <= dx * dx <= 0xffff * 0xffff && 0 <= 4 * dy * dy <= 0x40000000000
                        && 0 <= 4 * (rad as i64) * (rad as i64) <= 0x40000000000)
                        by (nonlinear_arith)
                        requires
                            -0xffff <= dx <= 0xffff,
                            -0xffff <= dy <= 0xffff,
                            0 <= rad <= 0xffff,
                    ;
                }
                let dd: i64 = dx * dx + 4 * dy * dy;
                let r: i64 = rad as i64;
                let ring_ok = 4 * r * r - 8 * r <= dd && dd <= 4 * r * r + 8 * r;
                if ring_ok && angle_lt_exec(dx, 2 * dy, self.ratio_num, self.ratio_den) {
                    buf.put(x, y, star);
                }
                proof {
                    assert forall|x2: int, y2: int|
                        old(buf).area.spec_contains(x2, y2) implies #[trigger] buf.cell_at(x2, y2)
                        == (if area.spec_contains(x2, y2) && (y2 < y || (y2 == y && x2 < x + 1))
                        && fill_at(
                        area,
                        rad as int,
                        self.ratio_num as int,
                        self.ratio_den as int,
                        x2,
                        y2,
                    ) {
                        star_cell(self.gauge_style)
                    } else {
                        styled.cell_at(x2, y2)
                    }) by {
                        if !(x2 == x as int && y2 == y as int) {
                            assert(buf.cell_at(x2, y2) == pre.cell_at(x2, y2));
                        }
                    }
                }
                x = x + 1;
            }
            y = y + 1;
        }
        // Draw the label over the ring, centered on the middle row.
        let ltext: Vec<char> = match self.label {
            Some(ref l) => {
                let mut copy: Vec<char> = Vec::new();
                let mut i: usize = 0;
                while i < l.len()
                    invariant
                        0 <= i <= l@.len(),
                        copy@ == l@.take(i as int),
                    decreases l@.len() - i,
                {
                    copy.push(l[i]);
                    proof {
                        assert(copy@ =~= l@.take(i + 1));
                    }
                    i = i + 1;
                }
                proof {
                    assert(copy@ =~= l@);
                }
                copy
            },
            None => {
                proof {
                    lemma_rounded_percent_range(self.ratio_num as int, self.ratio_den as int);
                }
                let v: u32 = (200 * (self.ratio_num as u32) + (self.ratio_den as u32)) / (2 * (
                self.ratio_den as u32));
                let mut digits: Vec<char> = Vec::new();
                if v >= 100 {
                    digits.push('1');
                    digits.push('0');
                    digits.push('0');
                } else if v >= 10 {
                    digits.push((48 + (v / 10) as u8) as char);
                    digits.push((48 + (v % 10) as u8) as char);
                } else {
                    digits.push((48 + v as u8) as char);
                }
                digits.push('%');
                proof {
                    assert(digits@ =~= percent_chars(self.ratio_num as int, self.ratio_den as int));
                }
                digits
            },
        };
        let clw: u16 = if ltext.len() < diam as usize {
            ltext.len() as u16
        } else {
            diam
        };
        let lx: u16 = cx - clw / 2;
        proof {
            assert(lx == Self::label_left(self.label_chars(), area));
        }
        let _end = buf.set_text(lx, cy, &ltext, clw, self.label_style);
    }

    /// Width the label may take: clipped to the ring's double radius.
    pub open spec fn label_clip(label: Seq<char>, area: Rect) -> int {
        vstd::math::min(label.len() as int, 2 * ring_radius(area))
    }

    /// Column where the label starts: centered on the area's middle.
    pub open spec fn label_left(label: Seq<char>, area: Rect) -> int {
        center_x(area) - Self::label_clip(label, area) / 2
    }

    /// How many label characters are actually drawn: the clipped width,
    /// further truncated at the area's right edge.
    pub open spec fn label_fit(label: Seq<char>, area: Rect) -> int {
        vstd::math::min(Self::label_clip(label, area), area.spec_right() - Self::label_left(label, area))
    }

    /// The cell of the ring-fill stage at `(x, y)`: a star if filled,
    /// else the base-styled original.
    pub open spec fn ring_cell(&self, area: Rect, orig: Cell, x: int, y: int) -> Cell {
        if fill_at(area, ring_radius(area), self.ratio_num as int, self.ratio_den as int, x, y) {
            star_cell(self.gauge_style)
        } else {
            patched(orig, self.style)
        }
    }
}

} // verus!
