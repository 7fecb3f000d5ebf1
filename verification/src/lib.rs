//! A terminal pomodoro timer library: a focus/break counter state machine
//! and character-cell widgets (a circular gauge, a block-glyph text
//! renderer and an aligned tab bar) that turn its numeric state into
//! cell-accurate output.

pub mod aligned_tabs;
pub mod ascii;
pub mod buffer;
pub mod circular_gauge;
pub mod counter;
pub mod font;
pub mod ui;
