//! Bitmap font for the block-glyph renderer.
//!
//! Each character is a 5x5 grid, represented as a `u32` with 7 unused
//! high bits. After the unused sector, the bitmap starts at the top left
//! cell in rows of 5 until the least significant bit at the bottom right
//! cell.
//!
//! For example, `A` is `01110_10001_11111_10001_10001`, which draws:
//!
//! ```text
//! 01110 | .xxx.
//! 10001 | x...x
//! 11111 | xxxxx
//! 10001 | x...x
//! 10001 | x...x
//! ```

use vstd::prelude::*;

verus! {

pub const A: u32 = 0b01110_10001_11111_10001_10001;

pub const B: u32 = 0b11110_10001_11110_10001_11110;

pub const C: u32 = 0b01111_10000_10000_10000_01111;

pub const D: u32 = 0b11110_10001_10001_10001_11110;

pub const E: u32 = 0b11111_10000_11110_10000_11111;

pub const F: u32 = 0b11111_10000_11110_10000_10000;

pub const G: u32 = 0b01111_10000_10011_10001_11110;

pub const H: u32 = 0b10001_10001_11111_10001_10001;

pub const I: u32 = 0b11111_00100_00100_00100_11111;

pub const J: u32 = 0b11111_00100_00100_00100_11000;

pub const K: u32 = 0b10001_10011_11110_10011_10001;

pub const L: u32 = 0b10000_10000_10000_10000_11111;

pub const M: u32 = 0b10001_11011_10101_10001_10001;

pub const N: u32 = 0b10001_11001_10101_10011_10001;

pub const O: u32 = 0b01110_10001_10001_10001_01110;

pub const P: u32 = 0b11110_10001_11110_10000_10000;

pub const Q: u32 = 0b01111_10001_10101_10010_01101;

pub const R: u32 = 0b11110_10001_11110_10010_10001;

pub const S: u32 = 0b01111_10000_11111_00001_11110;

pub const T: u32 = 0b11111_00100_00100_00100_00100;

pub const U: u32 = 0b10001_10001_10001_10001_11111;

pub const V: u32 = 0b10001_10001_10001_01010_00100;

pub const W: u32 = 0b10001_10001_10101_11011_10001;

pub const X: u32 = 0b10001_01010_00100_01010_10001;

pub const Y: u32 = 0b10001_01010_00100_00100_00100;

pub const Z: u32 = 0b11111_00010_00100_01000_11111;

pub const DIGIT_0: u32 = 0b11111_10011_10101_11001_11111;

pub const DIGIT_1: u32 = 0b00100_01100_00100_00100_11111;

pub const DIGIT_2: u32 = 0b11111_00001_11111_10000_11111;

pub const DIGIT_3: u32 = 0b11111_00001_11111_00001_11111;

pub const DIGIT_4: u32 = 0b10001_10001_11111_00001_00001;

pub const DIGIT_5: u32 = 0b11111_10000_11110_00001_11110;

pub const DIGIT_6: u32 = 0b01111_10000_11110_10001_11110;

pub const DIGIT_7: u32 = 0b11111_00010_00100_01000_10000;

pub const DIGIT_8: u32 = 0b11111_10001_11111_10001_11111;

pub const DIGIT_9: u32 = 0b11111_10001_11111_00001_11111;

pub const COLON: u32 = 0b01110_01110_00000_01110_01110;

pub const SPACE: u32 = 0b00000_00000_00000_00000_00000;

/// The glyph of a character: lower-case letters, digits and the colon
/// have bitmaps; everything else is blank.
pub open spec fn spec_glyph(x: char) -> u32 {
    match x {
        'a' => A,
        'b' => B,
        'c' => C,
        'd' => D,
        'e' => E,
        'f' => F,
        'g' => G,
        'h' => H,
        'i' => I,
        'j' => J,
        'k' => K,
        'l' => L,
        'm' => M,
        'n' => N,
        'o' => O,
        'p' => P,
        'q' => Q,
        'r' => R,
        's' => S,
        't' => T,
        'u' => U,
        'v' => V,
        'w' => W,
        'x' => X,
        'y' => Y,
        'z' => Z,
        '0' => DIGIT_0,
        '1' => DIGIT_1,
        '2' => DIGIT_2,
        '3' => DIGIT_3,
        '4' => DIGIT_4,
        '5' => DIGIT_5,
        '6' => DIGIT_6,
        '7' => DIGIT_7,
        '8' => DIGIT_8,
        '9' => DIGIT_9,
        ':' => COLON,
        _ => SPACE,
    }
}

/// Look a character's glyph up in the bitmap table.
pub fn get_glyph(x: char) -> (r: u32)
    ensures
        r == spec_glyph(x),
{
    match x {
        'a' => A,
        'b' => B,
        'c' => C,
        'd' => D,
        'e' => E,
        'f' => F,
        'g' => G,
        'h' => H,
        'i' => I,
        'j' => J,
        'k' => K,
        'l' => L,
        'm' => M,
        'n' => N,
        'o' => O,
        'p' => P,
        'q' => Q,
        'r' => R,
        's' => S,
        't' => T,
        'u' => U,
        'v' => V,
        'w' => W,
        'x' => X,
        'y' => Y,
        'z' => Z,
        '0' => DIGIT_0,
        '1' => DIGIT_1,
        '2' => DIGIT_2,
        '3' => DIGIT_3,
        '4' => DIGIT_4,
        '5' => DIGIT_5,
        '6' => DIGIT_6,
        '7' => DIGIT_7,
        '8' => DIGIT_8,
        '9' => DIGIT_9,
        ':' => COLON,
        _ => SPACE,
    }
}

/// Whether bit `k` (row-major, most significant of the 25 first) of a
/// glyph is set.
pub open spec fn glyph_bit(g: u32, k: int) -> bool {
    g & (1u32 << ((24 - k) as u32)) != 0
}

} // verus!
