//! Indexed palette colors and the generator that draws them at random.

use vstd::prelude::*;

verus! {

/// The number of colors in the palette: the sixteen system colors that every
/// terminal with indexed colors provides. Colors are the indices
/// `0..PALETTE_SIZE`.
pub const PALETTE_SIZE: u8 = 16;

/// One color of the palette, held as its index.
#[derive(Clone, Copy, Debug, PartialEq, Eq)]
pub struct AnsiColor {
    index: u8,
}

impl View for AnsiColor {
    type V = int;

    /// The palette index of the color.
    closed spec fn view(&self) -> int {
        self.index as int
    }
}

impl AnsiColor {
    /// No color exists outside the palette.
    #[verifier::type_invariant]
    pub open spec fn in_palette(self) -> bool {
        0 <= self@ < PALETTE_SIZE
    }

    /// The color with the given palette index, if the palette has one.
    pub fn new(index: u8) -> (color: Option<AnsiColor>)
        ensures
            color is Some <==> index < PALETTE_SIZE,
            color is Some ==> color->0@ == index,
    {
        if index < PALETTE_SIZE {
            Some(AnsiColor { index })
        } else {
            None
        }
    }

    /// The palette index of the color.
    pub fn index(&self) -> (index: u8)
        ensures
            index == self@,
            index < PALETTE_SIZE,
    {
        proof {
            use_type_invariant(self);
        }
        self.index
    }
}

/// Draws a number from `0..bound` with the thread-local generator, by
/// `rand::random_range`. The contract claims only what holds of every draw:
/// the number lies below `bound`. An empty range makes the outside function
/// panic, so `bound` must be positive.
#[verifier::external_body]
fn random_below(bound: u8) -> (n: u8)
    requires
        bound > 0,
    ensures
        n < bound,
{
    rand::random_range(0..bound)
}

/// A color drawn at random from the palette.
pub fn generate_ansi_color() -> (color: AnsiColor)
    ensures
        0 <= color@ < PALETTE_SIZE,
{
    AnsiColor { index: random_below(PALETTE_SIZE) }
}

} // verus!
