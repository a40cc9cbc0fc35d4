//! What a render mode hands to the terminal: characters with their colors.

use vstd::prelude::*;
use crate::color::{generate_ansi_color, AnsiColor, PALETTE_SIZE};

verus! {

/// The character drawn in a cell that has no color yet.
pub const BLANK: char = ' ';

/// One character to write at the cursor, in `color` if it has one and in
/// the terminal's current color otherwise.
#[derive(Clone, Copy, Debug, PartialEq, Eq)]
pub struct Glyph {
    pub color: Option<AnsiColor>,
    pub ch: char,
}

/// True of a glyph that shows `ch` in some color of the palette.
pub open spec fn is_colored(glyph: Glyph, ch: char) -> bool {
    &&& glyph.ch == ch
    &&& glyph.color matches Some(color)
    &&& 0 <= color@ < PALETTE_SIZE
}

/// The character `ch` in a freshly drawn random color: what one tick of the
/// endless mode writes.
pub fn colored_glyph(ch: char) -> (glyph: Glyph)
    ensures
        is_colored(glyph, ch),
{
    Glyph { color: Some(generate_ansi_color()), ch }
}

/// One full screen of `fill`: a glyph for each of the `area` cells, in the
/// order in which the cells are written, each in a random color of its own.
pub fn fill_screen(area: usize, fill: char) -> (glyphs: Vec<Glyph>)
    ensures
        glyphs@.len() == area,
        forall|i: int| 0 <= i < area ==> is_colored(#[trigger] glyphs@[i], fill),
{
    let mut glyphs: Vec<Glyph> = Vec::new();
    let mut painted: usize = 0;
    while painted < area
        invariant
            painted <= area,
            glyphs@.len() == painted,
            forall|i: int| 0 <= i < painted ==> is_colored(#[trigger] glyphs@[i], fill),
        decreases area - painted,
    {
        glyphs.push(colored_glyph(fill));
        painted += 1;
    }
    glyphs
}

} // verus!
