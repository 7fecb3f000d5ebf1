use flussomodoro::aligned_tabs::{AlignedTabs, Alignment};
use flussomodoro::ascii::Ascii;
use flussomodoro::buffer::{Buffer, Cell, Color, Rect, Style};
use flussomodoro::circular_gauge::{CircularGauge, GaugeError};
use flussomodoro::font;

fn area(x: u16, y: u16, width: u16, height: u16) -> Rect {
    Rect { x, y, width, height }
}

fn fg(color: Color) -> Style {
    Style::fg(color)
}

#[test]
fn buffer_starts_blank_and_writes_text() {
    let mut buf = Buffer::new(area(0, 0, 4, 2));
    assert_eq!(buf.get(0, 0).symbol, ' ');
    assert_eq!(buf.get(3, 1).symbol, ' ');
    let text: Vec<char> = vec!['a', 'b', 'c'];
    let end = buf.set_text(1, 0, &text, 10, fg(Color::Green));
    assert_eq!(end, 4);
    assert_eq!(buf.get(1, 0).symbol, 'a');
    assert_eq!(buf.get(2, 0).symbol, 'b');
    assert_eq!(buf.get(3, 0).symbol, 'c');
    assert_eq!(buf.get(1, 0).fg, Color::Green);
    assert_eq!(buf.get(0, 0).symbol, ' ');
    assert_eq!(buf.get(0, 0).fg, Color::Reset);
}

#[test]
fn buffer_set_text_truncates_at_edge() {
    let mut buf = Buffer::new(area(0, 0, 4, 1));
    let text: Vec<char> = vec!['w', 'i', 'd', 'e', 'r'];
    let end = buf.set_text(2, 0, &text, 10, Style { fg: None, bg: None });
    assert_eq!(end, 4);
    assert_eq!(buf.get(2, 0).symbol, 'w');
    assert_eq!(buf.get(3, 0).symbol, 'i');
}

#[test]
fn buffer_set_style_patches_region() {
    let mut buf = Buffer::new(area(0, 0, 3, 3));
    buf.set_style(area(1, 1, 1, 1), fg(Color::Yellow));
    assert_eq!(buf.get(1, 1).fg, Color::Yellow);
    assert_eq!(buf.get(0, 0).fg, Color::Reset);
    assert_eq!(buf.get(2, 2).fg, Color::Reset);
}

#[test]
fn glyph_table_lookup() {
    assert_eq!(font::get_glyph('a'), 0b01110_10001_11111_10001_10001);
    assert_eq!(font::get_glyph('1'), 0b00100_01100_00100_00100_11111);
    assert_eq!(font::get_glyph(':'), 0b01110_01110_00000_01110_01110);
    // unknown characters map to the blank glyph
    assert_eq!(font::get_glyph('?'), 0);
    assert_eq!(font::get_glyph('A'), 0);
}

#[test]
fn ascii_lowercases_its_text() {
    let a = Ascii::new("AB:7z");
    assert_eq!(a.text, vec!['a', 'b', ':', '7', 'z']);
}

#[test]
fn ascii_narrow_area_falls_back_to_plain_text() {
    // "12" needs 8 * 2 - 3 = 13 columns of glyph blocks; 10 are there.
    let mut buf = Buffer::new(area(0, 0, 10, 7));
    Ascii::new("12").style(fg(Color::LightRed)).render(area(0, 0, 10, 7), &mut buf);
    // plain centered text on the top row
    assert_eq!(buf.get(4, 0).symbol, '1');
    assert_eq!(buf.get(5, 0).symbol, '2');
    // no glyph-block pattern anywhere: no cell got the swapped colors
    for y in 0..7 {
        for x in 0..10 {
            assert_eq!(buf.get(x, y).bg, Color::Reset);
            assert_eq!(buf.get(x, y).fg, Color::LightRed);
        }
    }
}

#[test]
fn ascii_short_area_falls_back_to_plain_text() {
    let mut buf = Buffer::new(area(0, 0, 20, 3));
    Ascii::new("12").style(fg(Color::LightRed)).render(area(0, 0, 20, 3), &mut buf);
    assert_eq!(buf.get(9, 0).symbol, '1');
    assert_eq!(buf.get(10, 0).symbol, '2');
    for y in 0..3 {
        for x in 0..20 {
            assert_eq!(buf.get(x, y).bg, Color::Reset);
        }
    }
}

#[test]
fn ascii_draws_glyph_blocks() {
    // "1" in a 21 x 7 area: 5 glyph columns centered at column 8, rows
    // 1 through 5; the digit 1 bitmap has ten set bits.
    let mut buf = Buffer::new(area(0, 0, 21, 7));
    Ascii::new("1").style(fg(Color::LightRed)).render(area(0, 0, 21, 7), &mut buf);
    let block = |c: &Cell| c.symbol == ' ' && c.bg == Color::LightRed && c.fg == Color::Reset;
    assert!(block(buf.get(10, 1)));
    assert!(block(buf.get(9, 2)));
    assert!(block(buf.get(10, 2)));
    for x in 8..13 {
        assert!(block(buf.get(x, 5)));
    }
    assert!(!block(buf.get(8, 1)));
    let mut blocks = 0;
    for y in 0..7 {
        for x in 0..21 {
            if block(buf.get(x, y)) {
                blocks += 1;
            }
        }
    }
    assert_eq!(blocks, 10);
}

#[test]
fn gauge_rejects_out_of_range_ratios() {
    for percent in 0..=255u16 {
        let r = CircularGauge::default().percent(percent as u8);
        assert_eq!(r.is_ok(), percent <= 100);
        if percent > 100 {
            assert_eq!(r.unwrap_err(), GaugeError::PercentOutOfRange);
        }
    }
    assert!(CircularGauge::default().ratio(1, 2).is_ok());
    assert!(CircularGauge::default().ratio(2, 2).is_ok());
    assert_eq!(
        CircularGauge::default().ratio(3, 2).unwrap_err(),
        GaugeError::RatioOutOfRange
    );
    assert_eq!(
        CircularGauge::default().ratio(0, 0).unwrap_err(),
        GaugeError::RatioOutOfRange
    );
}

#[test]
fn gauge_full_ring_and_default_label() {
    // 20 x 10 area: radius 3, center (10, 5), label "100%" at column 8.
    let mut buf = Buffer::new(area(0, 0, 20, 10));
    let gauge = CircularGauge::default()
        .ratio(1, 1)
        .unwrap()
        .gauge_style(fg(Color::Green));
    gauge.render(area(0, 0, 20, 10), &mut buf);
    assert_eq!(buf.get(8, 5).symbol, '1');
    assert_eq!(buf.get(9, 5).symbol, '0');
    assert_eq!(buf.get(10, 5).symbol, '0');
    assert_eq!(buf.get(11, 5).symbol, '%');
    // ring cells on every side of the center
    assert_eq!(buf.get(16, 5).symbol, '*');
    assert_eq!(buf.get(4, 5).symbol, '*');
    assert_eq!(buf.get(10, 2).symbol, '*');
    assert_eq!(buf.get(10, 8).symbol, '*');
    assert_eq!(buf.get(16, 5).fg, Color::Green);
}

#[test]
fn gauge_zero_ratio_draws_no_arc() {
    let mut buf = Buffer::new(area(0, 0, 20, 10));
    let gauge = CircularGauge::default().ratio(0, 1).unwrap();
    gauge.render(area(0, 0, 20, 10), &mut buf);
    for y in 0..10 {
        for x in 0..20 {
            assert_ne!(buf.get(x, y).symbol, '*');
        }
    }
    // default label "0%"
    assert_eq!(buf.get(9, 5).symbol, '0');
    assert_eq!(buf.get(10, 5).symbol, '%');
}

#[test]
fn gauge_half_ratio_fills_half_the_turn() {
    // The turn starts downward and advances through the right side, so
    // at one half the right side is filled and the left is not.
    let mut buf = Buffer::new(area(0, 0, 20, 10));
    let gauge = CircularGauge::default().ratio(1, 2).unwrap();
    gauge.render(area(0, 0, 20, 10), &mut buf);
    assert_eq!(buf.get(10, 8).symbol, '*'); // down: fraction 0
    assert_eq!(buf.get(16, 5).symbol, '*'); // right: fraction 1/4
    assert_ne!(buf.get(10, 2).symbol, '*'); // up: exactly 1/2, excluded
    assert_ne!(buf.get(4, 5).symbol, '*'); // left: fraction 3/4
}

#[test]
fn gauge_too_small_area_is_a_no_op() {
    let mut buf = Buffer::new(area(0, 0, 3, 3));
    let gauge = CircularGauge::default().ratio(1, 1).unwrap();
    gauge.render(area(0, 0, 3, 3), &mut buf);
    for y in 0..3 {
        for x in 0..3 {
            assert_eq!(buf.get(x, y).symbol, ' ');
        }
    }
}

#[test]
fn gauge_custom_label() {
    let mut buf = Buffer::new(area(0, 0, 20, 10));
    let gauge = CircularGauge::default()
        .ratio(0, 1)
        .unwrap()
        .label("hi", fg(Color::White));
    gauge.render(area(0, 0, 20, 10), &mut buf);
    assert_eq!(buf.get(9, 5).symbol, 'h');
    assert_eq!(buf.get(10, 5).symbol, 'i');
    assert_eq!(buf.get(9, 5).fg, Color::White);
}

fn three_tabs() -> Vec<String> {
    vec!["aa".to_string(), "bb".to_string(), "cc".to_string()]
}

#[test]
fn tabs_center_alignment_centers_the_row() {
    // Total width: 3 titles of 2 + 2 padding each, 2 dividers = 14.
    // Centered in 40 columns the row starts at column 13.
    let mut buf = Buffer::new(area(0, 0, 40, 3));
    AlignedTabs::new(three_tabs())
        .alignment(Alignment::Center)
        .render(area(0, 0, 40, 3), &mut buf);
    assert_eq!(buf.get(12, 0).symbol, ' ');
    assert_eq!(buf.get(13, 0).symbol, ' '); // leading padding
    assert_eq!(buf.get(14, 0).symbol, 'a');
    assert_eq!(buf.get(15, 0).symbol, 'a');
    assert_eq!(buf.get(17, 0).symbol, '│');
    assert_eq!(buf.get(19, 0).symbol, 'b');
    assert_eq!(buf.get(22, 0).symbol, '│');
    assert_eq!(buf.get(24, 0).symbol, 'c');
    assert_eq!(buf.get(26, 0).symbol, ' '); // trailing padding
    assert_eq!(buf.get(27, 0).symbol, ' ');
}

#[test]
fn tabs_right_alignment_ends_at_right_edge() {
    // Right-aligned, the 14-cell row occupies columns 26 through 39, so
    // the last tab's trailing padding sits on the area's last column.
    let mut buf = Buffer::new(area(0, 0, 40, 3));
    AlignedTabs::new(three_tabs())
        .alignment(Alignment::Right)
        .render(area(0, 0, 40, 3), &mut buf);
    assert_eq!(buf.get(27, 0).symbol, 'a');
    assert_eq!(buf.get(30, 0).symbol, '│');
    assert_eq!(buf.get(37, 0).symbol, 'c');
    assert_eq!(buf.get(38, 0).symbol, 'c');
    assert_eq!(buf.get(39, 0).symbol, ' ');
    assert_eq!(buf.get(25, 0).symbol, ' ');
}

#[test]
fn tabs_highlight_selected_title() {
    let mut buf = Buffer::new(area(0, 0, 40, 1));
    AlignedTabs::new(three_tabs())
        .style(fg(Color::Green))
        .highlight_style(fg(Color::Yellow))
        .select(1)
        .render(area(0, 0, 40, 1), &mut buf);
    // left-aligned: 'aa' at 1-2, 'bb' at 6-7, 'cc' at 11-12
    assert_eq!(buf.get(1, 0).symbol, 'a');
    assert_eq!(buf.get(1, 0).fg, Color::Green);
    assert_eq!(buf.get(6, 0).symbol, 'b');
    assert_eq!(buf.get(6, 0).fg, Color::Yellow);
    assert_eq!(buf.get(7, 0).fg, Color::Yellow);
    assert_eq!(buf.get(11, 0).symbol, 'c');
    assert_eq!(buf.get(11, 0).fg, Color::Green);
}

#[test]
fn tabs_truncate_at_right_edge() {
    let mut buf = Buffer::new(area(0, 0, 8, 1));
    AlignedTabs::new(three_tabs()).render(area(0, 0, 8, 1), &mut buf);
    assert_eq!(buf.get(1, 0).symbol, 'a');
    assert_eq!(buf.get(4, 0).symbol, '│');
    assert_eq!(buf.get(6, 0).symbol, 'b');
    assert_eq!(buf.get(7, 0).symbol, 'b');
}

#[test]
fn tabs_divider_can_change() {
    let mut buf = Buffer::new(area(0, 0, 20, 1));
    AlignedTabs::new(three_tabs())
        .divider('/')
        .render(area(0, 0, 20, 1), &mut buf);
    assert_eq!(buf.get(4, 0).symbol, '/');
}
