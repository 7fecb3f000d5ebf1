//! The main page and the scrollable help page, and the clock text the
//! main page's widgets draw.

use vstd::prelude::*;
use vstd::string::StringExecFns;

use crate::circular_gauge::digit_char;

verus! {

/// The decimal digits of a nonnegative number, most significant first.
pub open spec fn dec_chars(n: int) -> Seq<char>
    decreases n,
{
    if n < 10 {
        seq![digit_char(n)]
    } else {
        dec_chars(n / 10).push(digit_char(n % 10))
    }
}

/// The clock text for a number of seconds: the whole minutes, a colon,
/// and the remaining seconds as two digits.
pub open spec fn spec_time_chars(seconds: int) -> Seq<char> {
    dec_chars(seconds / 60) + seq![':', digit_char((seconds % 60) / 10), digit_char(
        (seconds % 60) % 10,
    )]
}

/// Append the decimal digits of `n`, most significant first.
fn push_decimal(out: &mut Vec<char>, n: u16)
    ensures
        final(out)@ == old(out)@ + dec_chars(n as int),
    decreases n,
{
    if n >= 10 {
        push_decimal(out, n / 10);
    }
    out.push((48 + (n % 10) as u8) as char);
    proof {
        assert(out@ =~= old(out)@ + dec_chars(n as int));
    }
}

/// The clock text for a number of seconds, e.g. 150 seconds as `2:30`.
pub fn time_chars(seconds: u16) -> (r: Vec<char>)
    ensures
        r@ == spec_time_chars(seconds as int),
{
    let mut r: Vec<char> = Vec::new();
    push_decimal(&mut r, seconds / 60);
    let rest: u16 = seconds % 60;
    r.push(':');
    r.push((48 + (rest / 10) as u8) as char);
    r.push((48 + (rest % 10) as u8) as char);
    proof {
        assert(r@ =~= spec_time_chars(seconds as int));
    }
    r
}

/// The main counter page. It holds no state of its own; the surrounding
/// application reads the counter and renders the widgets.
#[derive(Copy, Clone, Debug)]
pub struct Main {}

impl Default for Main {
    fn default() -> (m: Self)
        ensures
            m == (Main {  }),
    {
        Main {  }
    }
}

/// The help page: static content plus a scroll position.
#[derive(Copy, Clone, Debug)]
pub struct Help {
    pub scroll: u16,
}

impl Default for Help {
    /// A help page scrolled to the top.
    fn default() -> (h: Self)
        ensures
            h == (Help { scroll: 0u16 }),
    {
        Help { scroll: 0 }
    }
}

impl Help {
    /// The help text, one line per entry.
    pub fn content() -> (lines: Vec<String>)
        ensures
            lines@.len() == 11,
            lines@[0]@ == "Help"@,
            lines@[1]@ == ""@,
            lines@[2]@ == "Global"@,
            lines@[3]@ == ""@,
            lines@[4]@ == "[h] - This menu"@,
            lines@[5]@ == "[j/k] - Scroll down/up respectively (where applicable)"@,
            lines@[6]@ == ""@,
            lines@[7]@ == "Counter"@,
            lines@[8]@ == ""@,
            lines@[9]@ == "[p] - Toggle pause"@,
            lines@[10]@ == "[b] - Toggle break (while not paused)"@,
    {
        let mut lines: Vec<String> = Vec::new();
        lines.push(String::from_str("Help"));
        lines.push(String::from_str(""));
        lines.push(String::from_str("Global"));
        lines.push(String::from_str(""));
        lines.push(String::from_str("[h] - This menu"));
        lines.push(String::from_str("[j/k] - Scroll down/up respectively (where applicable)"));
        lines.push(String::from_str(""));
        lines.push(String::from_str("Counter"));
        lines.push(String::from_str(""));
        lines.push(String::from_str("[p] - Toggle pause"));
        lines.push(String::from_str("[b] - Toggle break (while not paused)"));
        lines
    }

    /// The scroll position after jumping to `scroll`: clamped to the last
    /// content line.
    pub open spec fn spec_scroll_to(scroll: int) -> int {
        vstd::math::min(scroll, 10)
    }

    /// The scroll position after scrolling by `delta`: unchanged if the
    /// sum leaves the `u16` range, else clamped to the last content line.
    pub open spec fn spec_scroll_by(self, delta: int) -> int {
        if self.scroll + delta < 0 || self.scroll + delta > u16::MAX {
            self.scroll as int
        } else {
            Self::spec_scroll_to(self.scroll + delta)
        }
    }

    /// Jump to line `scroll`, clamped to the content.
    pub fn scroll_to(&mut self, scroll: u16)
        ensures
            final(self).scroll == Self::spec_scroll_to(scroll as int),
    {
        let content = Self::content();
        let limit: u16 = (content.len() - 1) as u16;
        self.scroll = if scroll < limit {
            scroll
        } else {
            limit
        };
    }

    /// Scroll by a signed amount; a step outside the `u16` range is
    /// ignored.
    pub fn scroll_by(&mut self, scroll: i16)
        ensures
            final(self).scroll == old(self).spec_scroll_by(scroll as int),
    {
        if scroll >= 0 {
            let d = scroll as u16;
            if self.scroll <= u16::MAX - d {
                let target = self.scroll + d;
                self.scroll_to(target);
            }
        } else {
            let d = (-(scroll as i32)) as u16;
            if self.scroll >= d {
                let target = self.scroll - d;
                self.scroll_to(target);
            }
        }
    }
}

} // verus!
