//! The render modes a run can be started in.

use vstd::prelude::*;

verus! {

/// The character that is printed when none is chosen.
pub const DEFAULT_CHAR: char = '.';

/// The separator of the spaced mode when none is chosen.
pub const DEFAULT_SEPARATOR: char = '*';

/// The spacing of the spaced mode when none is chosen.
pub const DEFAULT_SPACES: usize = 3;

/// The available render modes.
#[derive(Clone, Copy, Debug, PartialEq, Eq)]
pub enum Mode {
    /// Fill the screen at once, then wait.
    FillScreen,
    /// Print one character per tick, without end.
    Infinite,
    /// Color one random cell of the screen per tick.
    Random,
    /// Print one character per tick, with a separator after every `spaces`
    /// characters.
    Spaced { separator: char, spaces: usize },
}

/// The name by which a mode is selected and shown.
pub open spec fn mode_name(mode: Mode) -> Seq<char> {
    match mode {
        Mode::FillScreen => "fill-screen"@,
        Mode::Infinite => "infinite"@,
        Mode::Random => "random"@,
        Mode::Spaced { .. } => "spaced"@,
    }
}

impl Mode {
    /// The name of the mode.
    pub fn name(&self) -> (name: &'static str)
        ensures
            name@ == mode_name(*self),
    {
        match self {
            Mode::FillScreen => "fill-screen",
            Mode::Infinite => "infinite",
            Mode::Random => "random",
            Mode::Spaced { .. } => "spaced",
        }
    }
}

impl Default for Mode {
    /// The mode of a run that names none: the screen is filled at once.
    fn default() -> (mode: Mode)
        ensures
            mode == Mode::FillScreen,
    {
        Mode::FillScreen
    }
}

} // verus!
