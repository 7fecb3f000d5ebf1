//! The alignment-aware tab bar.
//!
//! [`AlignedTabs`] lays a row of titles out on the top row of its target
//! area, each title padded by one cell on both sides and separated from
//! the next by a divider glyph. The whole row is placed left, centered or
//! right within the area, drawing stops at the area's right edge, and the
//! selected title's characters take the highlight style.

use vstd::prelude::*;

use crate::buffer::{chars_of, patched, Buffer, Cell, Rect, Style};

verus! {

broadcast use vstd::seq::group_seq_axioms;

/// Horizontal placement of the whole tab row within the area.
#[derive(Copy, Clone, Debug, PartialEq, Eq, Structural)]
pub enum Alignment {
    Left,
    Center,
    Right,
}

/// What one column of the tab row holds: padding (the cell's symbol is
/// kept), one character of a title, or the divider glyph.
#[derive(Copy, Clone, Debug, PartialEq, Eq, Structural)]
pub enum TabCell {
    Pad,
    Title { c: char, selected: bool },
    Divider,
}

/// The views of a vector of character vectors.
pub open spec fn views_of(ts: Seq<Vec<char>>) -> Seq<Seq<char>> {
    Seq::new(ts.len(), |i: int| ts[i]@)
}

/// Width in cells of the first `i` tabs: each title plus two padding
/// cells, plus one divider cell after every tab but the last.
pub open spec fn width_upto(titles: Seq<Seq<char>>, i: int) -> int
    decreases i,
{
    if i <= 0 {
        0
    } else {
        width_upto(titles, i - 1) + titles[i - 1].len() + 2 + (if i == titles.len() {
            0int
        } else {
            1int
        })
    }
}

/// Total width of the tab row.
pub open spec fn total_width(titles: Seq<Seq<char>>) -> int {
    width_upto(titles, titles.len() as int)
}

/// The running tab width is nonnegative.
pub proof fn lemma_width_upto_nonneg(titles: Seq<Seq<char>>, i: int)
    requires
        0 <= i,
    ensures
        0 <= width_upto(titles, i),
    decreases i,
{
    if i > 0 {
        lemma_width_upto_nonneg(titles, i - 1);
    }
}

/// Tab widths accumulate: the running width is nonnegative and
/// nondecreasing in the number of tabs counted.
pub proof fn lemma_width_upto_mono(titles: Seq<Seq<char>>, i: int, j: int)
    requires
        0 <= i <= j,
    ensures
        0 <= width_upto(titles, i) <= width_upto(titles, j),
    decreases j - i,
{
    lemma_width_upto_nonneg(titles, i);
    if j > i {
        lemma_width_upto_mono(titles, i, j - 1);
    }
}

/// The row of cells the first `i` tabs produce.
pub open spec fn row_upto(titles: Seq<Seq<char>>, selected: int, i: int) -> Seq<TabCell>
    decreases i,
{
    if i <= 0 {
        Seq::empty()
    } else {
        row_upto(titles, selected, i - 1) + tab_cells(titles[i - 1], i - 1 == selected) + (if i
            == titles.len() {
            Seq::<TabCell>::empty()
        } else {
            seq![TabCell::Divider]
        })
    }
}

/// The cells of one tab: a padding cell, the title, a padding cell.
pub open spec fn tab_cells(t: Seq<char>, selected: bool) -> Seq<TabCell> {
    seq![TabCell::Pad] + Seq::new(t.len(), |j: int| title_cell(t, selected, j)) + seq![
        TabCell::Pad,
    ]
}

/// The row cell for character `j` of a title.
pub open spec fn title_cell(t: Seq<char>, selected: bool, j: int) -> TabCell {
    TabCell::Title { c: t[j], selected }
}

/// The full tab row.
pub open spec fn tab_row(titles: Seq<Seq<char>>, selected: int) -> Seq<TabCell> {
    row_upto(titles, selected, titles.len() as int)
}

/// The row is as long as the accumulated tab widths say.
pub proof fn lemma_row_upto_len(titles: Seq<Seq<char>>, selected: int, i: int)
    requires
        0 <= i,
    ensures
        row_upto(titles, selected, i).len() == width_upto(titles, i),
    decreases i,
{
    if i > 0 {
        lemma_row_upto_len(titles, selected, i - 1);
        assert(tab_cells(titles[i - 1], i - 1 == selected).len() == titles[i - 1].len() + 2);
    }
}

/// Column where the tab row starts, clamped to the area's left edge.
pub open spec fn start_x(alignment: Alignment, area: Rect, total: int) -> int {
    match alignment {
        Alignment::Left => area.x as int,
        Alignment::Center => vstd::math::max(
            area.x as int,
            area.x + area.width as int / 2 - total / 2,
        ),
        Alignment::Right => vstd::math::max(area.x as int, area.spec_right() - total),
    }
}

/// The final value of a row cell: `op` drawn over an original cell that
/// has already taken the base style.
pub open spec fn op_cell(styled: Cell, highlight: Style, divider: char, op: TabCell) -> Cell {
    match op {
        TabCell::Pad => styled,
        TabCell::Title { c, selected } => Cell {
            symbol: c,
            ..(if selected {
                patched(styled, highlight)
            } else {
                styled
            })
        },
        TabCell::Divider => Cell { symbol: divider, ..styled },
    }
}

/// A centered row of width `total <= area.width` starts at the centered
/// offset exactly, and a right-aligned row ends flush with the area's
/// right edge.
pub proof fn lemma_alignment_position(alignment: Alignment, area: Rect, total: int)
    requires
        area.wf(),
        0 <= total <= area.width,
    ensures
        alignment is Center ==> start_x(alignment, area, total) == area.x + area.width as int / 2
            - total / 2,
        alignment is Right ==> start_x(alignment, area, total) + total == area.spec_right(),
{
}

/// A row of titled tabs with a selection, divider and alignment.
#[derive(Clone, Debug)]
pub struct AlignedTabs {
    pub titles: Vec<Vec<char>>,
    pub selected: usize,
    pub style: Style,
    pub highlight_style: Style,
    pub divider: char,
    pub alignment: Alignment,
}

impl AlignedTabs {
    /// A tab bar over `titles`, first tab selected, left-aligned, with
    /// the box-drawing vertical-line divider and no style overrides.
    pub fn new(titles: Vec<String>) -> (t: AlignedTabs)
        requires
            titles@.len() >= 1,
        ensures
            views_of(t.titles@) == titles@.map_values(|s: String| s@),
            t.titles@.len() == titles@.len(),
            t.selected == 0,
            t.style == (Style { fg: Option::<crate::buffer::Color>::None, bg: Option::<
                crate::buffer::Color,
            >::None }),
            t.highlight_style == t.style,
            t.divider == '│',
            t.alignment is Left,
    {
        let mut converted: Vec<Vec<char>> = Vec::new();
        let mut i: usize = 0;
        while i < titles.len()
            invariant
                0 <= i <= titles@.len(),
                converted@.len() == i,
                forall|j: int| 0 <= j < i ==> converted@[j]@ == titles@[j]@,
            decreases titles@.len() - i,
        {
            let cs = chars_of(titles[i].as_str());
            converted.push(cs);
            i = i + 1;
        }
        proof {
            assert(views_of(converted@) =~= titles@.map_values(|s: String| s@));
        }
        AlignedTabs {
            titles: converted,
            selected: 0,
            style: Style { fg: None, bg: None },
            highlight_style: Style { fg: None, bg: None },
            divider: '│',
            alignment: Alignment::Left,
        }
    }

    /// Replace the selected index.
    pub fn select(self, selected: usize) -> (t: AlignedTabs)
        ensures
            t == (AlignedTabs { selected, ..self }),
    {
        AlignedTabs { selected, ..self }
    }

    /// Replace the base style.
    pub fn style(self, style: Style) -> (t: AlignedTabs)
        ensures
            t == (AlignedTabs { style, ..self }),
    {
        AlignedTabs { style, ..self }
    }

    /// Replace the highlight style of the selected title.
    pub fn highlight_style(self, highlight_style: Style) -> (t: AlignedTabs)
        ensures
            t == (AlignedTabs { highlight_style, ..self }),
    {
        AlignedTabs { highlight_style, ..self }
    }

    /// Replace the divider glyph.
    pub fn divider(self, divider: char) -> (t: AlignedTabs)
        ensures
            t == (AlignedTabs { divider, ..self }),
    {
        AlignedTabs { divider, ..self }
    }

    /// Replace the alignment.
    pub fn alignment(self, alignment: Alignment) -> (t: AlignedTabs)
        ensures
            t == (AlignedTabs { alignment, ..self }),
    {
        AlignedTabs { alignment, ..self }
    }

    /// Render the tab row into `buf` within `area`.
    ///
    /// The whole area takes the base style. On the area's top row the tab
    /// row is drawn from its alignment offset, truncated at the area's
    /// right edge: padding columns keep their symbol, title characters
    /// and dividers replace theirs, and the selected title also takes the
    /// highlight style.
    pub fn render(self, area: Rect, buf: &mut Buffer)
        requires
            old(buf).wf(),
            area.wf(),
            area.spec_within(old(buf).area),
            self.titles@.len() >= 1,
            total_width(views_of(self.titles@)) <= u16::MAX,
        ensures
            final(buf).wf(),
            final(buf).area == old(buf).area,
            forall|x: int, y: int| #![trigger final(buf).cell_at(x, y)]
                old(buf).area.spec_contains(x, y) ==> final(buf).cell_at(x, y) == (
                if area.spec_contains(x, y) {
                    if y == area.y && start_x(
                        self.alignment,
                        area,
                        total_width(views_of(self.titles@)),
                    ) <= x < start_x(self.alignment, area, total_width(views_of(self.titles@)))
                        + vstd::math::min(
                        total_width(views_of(self.titles@)),
                        area.spec_right() - start_x(
                            self.alignment,
                            area,
                            total_width(views_of(self.titles@)),
                        ),
                    ) {
                        op_cell(
                            patched(old(buf).cell_at(x, y), self.style),
                            self.highlight_style,
                            self.divider,
                            tab_row(views_of(self.titles@), self.selected as int)[x - start_x(
                                self.alignment,
                                area,
                                total_width(views_of(self.titles@)),
                            )],
                        )
                    } else {
                        patched(old(buf).cell_at(x, y), self.style)
                    }
                } else {
                    old(buf).cell_at(x, y)
                }),
    {
        let ghost titles_v = views_of(self.titles@);
        let ghost total = total_width(titles_v);
        buf.set_style(area, self.style);
        let ghost styled = *buf;
        if area.height == 0 {
            return ;
        }
        // Sum the tab widths; every partial sum stays below the total.
        let n: usize = self.titles.len();
        let mut w: usize = 0;
        let mut i: usize = 0;
        while i < n
            invariant
                0 <= i <= n,
                n == self.titles@.len(),
                titles_v == views_of(self.titles@),
                total == total_width(titles_v),
                total <= u16::MAX,
                w == width_upto(titles_v, i as int),
            decreases n - i,
        {
            proof {
                lemma_width_upto_mono(titles_v, i as int + 1, n as int);
            }
            w = w + self.titles[i].len() + 2;
            if i + 1 < n {
                w = w + 1;
            }
            i = i + 1;
        }
        let total_w: u16 = w as u16;
        // The alignment offset, clamped to the area's left edge.
        let x0: u16 = match self.alignment {
            Alignment::Left => area.x,
            Alignment::Center => {
                let half = area.width / 2;
                let off = total_w / 2;
                if half >= off {
                    area.x + (half - off)
                } else {
                    area.x
                }
            },
            Alignment::Right => {
                if area.width >= total_w {
                    area.x + (area.width - total_w)
                } else {
                    area.x
                }
            },
        };
        proof {
            assert(x0 == start_x(self.alignment, area, total));
        }
        // Build the row of tab cells.
        let mut ops: Vec<TabCell> = Vec::new();
        let mut i: usize = 0;
        while i < n
            invariant
                0 <= i <= n,
                n == self.titles@.len(),
                titles_v == views_of(self.titles@),
                ops@ == row_upto(titles_v, self.selected as int, i as int),
            decreases n - i,
        {
            let title = &self.titles[i];
            let sel = i == self.selected;
            ops.push(TabCell::Pad);
            proof {
                assert(ops@ =~= row_upto(titles_v, self.selected as int, i as int) + seq![
                    TabCell::Pad,
                ] + Seq::new(0nat, |k: int| title_cell(title@, sel, k)));
            }
            let mut j: usize = 0;
            while j < title.len()
                invariant
                    0 <= j <= title@.len(),
                    title@ == titles_v[i as int],
                    0 <= i < n,
                    n == self.titles@.len(),
                    titles_v == views_of(self.titles@),
                    sel == (i == self.selected),
                    ops@ == row_upto(titles_v, self.selected as int, i as int) + seq![TabCell::Pad]
                        + Seq::new(j as nat, |k: int| title_cell(title@, sel, k)),
                decreases title@.len() - j,
            {
                ops.push(TabCell::Title { c: title[j], selected: sel });
                proof {
                    assert(ops@.last() == title_cell(title@, sel, j as int));
                }
                proof {
                    assert(ops@ =~= row_upto(titles_v, self.selected as int, i as int) + seq![
                        TabCell::Pad,
                    ] + Seq::new((j + 1) as nat, |k: int| title_cell(title@, sel, k)));
                }
                j = j + 1;
            }
            ops.push(TabCell::Pad);
            if i + 1 < n {
                ops.push(TabCell::Divider);
            }
            proof {
                assert(ops@ =~= row_upto(titles_v, self.selected as int, i as int + 1));
            }
            i = i + 1;
        }
        proof {
            lemma_row_upto_len(titles_v, self.selected as int, n as int);
        }
        // Blit the row onto the top row of the area, truncated at its
        // right edge.
        let avail: u16 = area.right() - x0;
        let limit: usize = if ops.len() < avail as usize {
            ops.len()
        } else {
            avail as usize
        };
        let mut k: usize = 0;
        while k < limit
            invariant
                buf.wf(),
                buf.area == old(buf).area,
                0 <= k <= limit,
                limit == vstd::math::min(total, area.spec_right() - x0),
                ops@ == tab_row(titles_v, self.selected as int),
                ops@.len() == total,
                titles_v == views_of(self.titles@),
                total == total_width(titles_v),
                area.x <= x0,
                x0 + limit <= area.spec_right(),
                area.y < area.spec_bottom(),
                area.wf(),
                area.spec_within(old(buf).area),
                styled.area == old(buf).area,
                forall|x: int, y: int| #![trigger styled.cell_at(x, y)]
                    old(buf).area.spec_contains(x, y) ==> styled.cell_at(x, y) == (
                    if area.spec_contains(x, y) {
                        patched(old(buf).cell_at(x, y), self.style)
                    } else {
                        old(buf).cell_at(x, y)
                    }),
                forall|x: int, y: int| #![trigger buf.cell_at(x, y)]
                    old(buf).area.spec_contains(x, y) ==> buf.cell_at(x, y) == (
                    if y == area.y && x0 <= x < x0 + k {
                        op_cell(
                            styled.cell_at(x, y),
                            self.highlight_style,
                            self.divider,
                            ops@[x - x0],
                        )
                    } else {
                        styled.cell_at(x, y)
                    }),
            decreases limit - k,
        {
            let xx: u16 = x0 + k as u16;
            let ghost pre = *buf;
            let op = ops[k];
            match op {
                TabCell::Pad => {},
                TabCell::Title { c, selected } => {
                    let cur = *buf.get(xx, area.y);
                    let base = if selected {
                        cur.patch(self.highlight_style)
                    } else {
                        cur
                    };
                    buf.put(xx, area.y, Cell { symbol: c, fg: base.fg, bg: base.bg });
                },
                TabCell::Divider => {
                    let cur = *buf.get(xx, area.y);
                    buf.put(xx, area.y, Cell { symbol: self.divider, fg: cur.fg, bg: cur.bg });
                },
            }
            proof {
                assert forall|x: int, y: int|
                    old(buf).area.spec_contains(x, y) implies #[trigger] buf.cell_at(x, y) == (
                if y == area.y && x0 <= x < x0 + k + 1 {
                    op_cell(styled.cell_at(x, y), self.highlight_style, self.divider, ops@[x - x0])
                } else {
                    styled.cell_at(x, y)
                }) by {
                    if !(x == xx as int && y == area.y as int) {
                        assert(buf.cell_at(x, y) == pre.cell_at(x, y));
                    }
                }
            }
            k = k + 1;
        }
    }
}

} // verus!
