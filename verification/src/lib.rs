//! The decision core of a terminal colorscript.
//!
//! The program paints a terminal with one repeated character in random
//! palette colors until the user asks to quit. Everything that it decides
//! lives here and is verified: how many cells a terminal has, which color a
//! cell gets, which key presses end a run, and which character each render
//! mode emits on each tick. Reading the terminal and writing to it is left to
//! the caller, which hands plain values in and takes plain values back.

pub mod color;
pub mod geometry;
pub mod grid;
pub mod input;
pub mod mode;
pub mod render;
pub mod spaced;
pub mod spacing;

pub use crate::color::{generate_ansi_color, AnsiColor, PALETTE_SIZE};
pub use crate::geometry::terminal_area_size;
pub use crate::grid::Grid;
pub use crate::input::{poll_quit, InputEvent, KeyCode, KeyEvent, KeyKind, Modifiers};
pub use crate::mode::{Mode, DEFAULT_CHAR, DEFAULT_SEPARATOR, DEFAULT_SPACES};
pub use crate::render::{colored_glyph, fill_screen, Glyph, BLANK};
pub use crate::spaced::Spaced;
pub use crate::spacing::{parse_number, valid_spacing};
