//! The grid of the random-cell mode: one slot per screen cell, blank until
//! a tick colors it.

use vstd::prelude::*;
use rand::seq::IndexedMutRandom;
use crate::color::{generate_ansi_color, AnsiColor, PALETTE_SIZE};
use crate::render::{Glyph, BLANK};

verus! {

/// How a slot is drawn: the fill character in the slot's color, or a blank
/// for a slot that has none yet.
pub open spec fn cell_glyph(cell: Option<AnsiColor>, fill: char) -> Glyph {
    match cell {
        Some(color) => Glyph { color: Some(color), ch: fill },
        None => Glyph { color: None, ch: BLANK },
    }
}

/// The full frame of a grid: the glyph of every slot, in slot order.
pub open spec fn frame_of(cells: Seq<Option<AnsiColor>>, fill: char) -> Seq<Glyph> {
    Seq::new(cells.len(), |i: int| cell_glyph(cells[i], fill))
}

/// True when every colored slot holds a color of the palette.
pub open spec fn palette_colors(cells: Seq<Option<AnsiColor>>) -> bool {
    forall|i: int|
        0 <= i < cells.len() ==> (#[trigger] cells[i] matches Some(color) ==> 0 <= color@
            < PALETTE_SIZE)
}

/// True when `after` is `before` with exactly one slot set to a color of the
/// palette, all other slots as they were.
pub open spec fn paints_one(
    before: Seq<Option<AnsiColor>>,
    after: Seq<Option<AnsiColor>>,
) -> bool {
    exists|i: int, color: AnsiColor|
        0 <= i < before.len() && 0 <= color@ < PALETTE_SIZE && after == #[trigger] before.update(
            i,
            Some(color),
        )
}

/// True when `after` has the slots of `before` and none that was colored
/// has become blank.
pub open spec fn keeps_colored(
    before: Seq<Option<AnsiColor>>,
    after: Seq<Option<AnsiColor>>,
) -> bool {
    &&& after.len() == before.len()
    &&& forall|i: int| 0 <= i < before.len() && before[i] is Some ==> (#[trigger] after[i]) is Some
}

/// Painting one slot never changes the number of slots and never clears a
/// slot: a colored slot can only be recolored.
pub proof fn lemma_paint_keeps_colored(
    before: Seq<Option<AnsiColor>>,
    after: Seq<Option<AnsiColor>>,
)
    requires
        paints_one(before, after),
    ensures
        keeps_colored(before, after),
{
}

/// Picks one element of `slots` at random, by
/// `rand::seq::IndexedMutRandom::choose_mut` with the thread-local generator.
/// The outside method returns `None` for an empty collection and otherwise a
/// mutable reference to the element at an index below the length. The
/// contract says so: with no slots nothing is handed out and nothing
/// changes; otherwise the reference stands for one slot, and whatever is
/// written through it is the only change to `slots`.
#[verifier::external_body]
fn choose_slot(slots: &mut Vec<Option<AnsiColor>>) -> (slot: Option<&mut Option<AnsiColor>>)
    ensures
        slot is Some <==> old(slots)@.len() > 0,
        slot is None ==> final(slots)@ == old(slots)@,
        slot is Some ==> exists|i: int|
            {
                &&& 0 <= i < old(slots)@.len()
                &&& *slot->0 == old(slots)@[i]
                &&& final(slots)@ == old(slots)@.update(i, *final(slot->0))
            },
{
    slots.choose_mut(&mut rand::rng())
}

/// The slots of the random-cell mode, one per screen cell in the order in
/// which the cells are written. A slot holds the color of its cell once a
/// tick has chosen it.
pub struct Grid {
    cells: Vec<Option<AnsiColor>>,
}

impl View for Grid {
    type V = Seq<Option<AnsiColor>>;

    closed spec fn view(&self) -> Seq<Option<AnsiColor>> {
        self.cells@
    }
}

impl Grid {
    /// A grid never holds a color from outside the palette.
    #[verifier::type_invariant]
    spec fn palette_only(self) -> bool {
        palette_colors(self.cells@)
    }

    /// A grid of `area` blank slots.
    pub fn new(area: usize) -> (grid: Grid)
        ensures
            grid@.len() == area,
            forall|i: int| 0 <= i < area ==> (#[trigger] grid@[i]) is None,
    {
        let mut cells: Vec<Option<AnsiColor>> = Vec::new();
        let mut made: usize = 0;
        while made < area
            invariant
                made <= area,
                cells@.len() == made,
                forall|i: int| 0 <= i < made ==> (#[trigger] cells@[i]) is None,
            decreases area - made,
        {
            cells.push(None);
            made += 1;
        }
        Grid { cells }
    }

    /// Takes the slots out of the grid, which is left without any. A slot
    /// is changed outside the grid and the slots are put back as a whole,
    /// so that the grid holds only palette colors at every moment.
    fn take_cells(&mut self) -> (cells: Vec<Option<AnsiColor>>)
        ensures
            cells@ == old(self)@,
            palette_colors(cells@),
    {
        proof {
            use_type_invariant(&*self);
        }
        let mut cells: Vec<Option<AnsiColor>> = Vec::new();
        core::mem::swap(&mut self.cells, &mut cells);
        cells
    }

    /// The number of slots.
    pub fn len(&self) -> (len: usize)
        ensures
            len == self@.len(),
    {
        self.cells.len()
    }

    /// The color of the slot at `index`; `None` for a blank slot and for an
    /// index beyond the grid.
    pub fn color_at(&self, index: usize) -> (color: Option<AnsiColor>)
        ensures
            color == if index < self@.len() {
                self@[index as int]
            } else {
                None
            },
            color matches Some(color) ==> 0 <= color@ < PALETTE_SIZE,
    {
        proof {
            use_type_invariant(self);
        }
        if index < self.cells.len() {
            self.cells[index]
        } else {
            None
        }
    }

    /// Sets the slot at `index` to `color` and says whether it did: an index
    /// beyond the grid changes nothing.
    pub fn paint(&mut self, index: usize, color: AnsiColor) -> (painted: bool)
        ensures
            painted == (index < old(self)@.len()),
            painted ==> final(self)@ == old(self)@.update(index as int, Some(color)),
            painted ==> paints_one(old(self)@, final(self)@),
            !painted ==> final(self)@ == old(self)@,
            keeps_colored(old(self)@, final(self)@),
    {
        proof {
            use_type_invariant(&color);
        }
        if index < self.cells.len() {
            let mut cells = self.take_cells();
            cells[index] = Some(color);
            *self = Grid { cells };
            true
        } else {
            false
        }
    }

    /// The frame that shows the grid: for every slot in order, `fill` in the
    /// slot's color, or a blank where the slot has no color yet.
    pub fn frame(&self, fill: char) -> (glyphs: Vec<Glyph>)
        ensures
            glyphs@ == frame_of(self@, fill),
            palette_colors(self@),
    {
        proof {
            use_type_invariant(self);
        }
        let mut glyphs: Vec<Glyph> = Vec::new();
        let mut drawn: usize = 0;
        while drawn < self.cells.len()
            invariant
                drawn <= self.cells@.len(),
                glyphs@.len() == drawn,
                forall|i: int|
                    0 <= i < drawn ==> #[trigger] glyphs@[i] == cell_glyph(self.cells@[i], fill),
            decreases self.cells@.len() - drawn,
        {
            let glyph = match self.cells[drawn] {
                Some(color) => Glyph { color: Some(color), ch: fill },
                None => Glyph { color: None, ch: BLANK },
            };
            glyphs.push(glyph);
            drawn += 1;
        }
        assert(glyphs@ =~= frame_of(self@, fill));
        glyphs
    }

    /// One tick of the random-cell mode: a slot chosen at random gets a
    /// freshly drawn color, and the whole grid is drawn again.
    ///
    /// A grid without slots has nothing to choose from: it stays as it is
    /// and there is no frame to write.
    pub fn tick(&mut self, fill: char) -> (frame: Option<Vec<Glyph>>)
        ensures
            old(self)@.len() == 0 ==> frame is None && final(self)@ == old(self)@,
            old(self)@.len() > 0 ==> paints_one(old(self)@, final(self)@),
            old(self)@.len() > 0 ==> frame is Some && frame->0@ == frame_of(final(self)@, fill),
            keeps_colored(old(self)@, final(self)@),
    {
        let mut cells = self.take_cells();
        let painted = match choose_slot(&mut cells) {
            Some(slot) => {
                *slot = Some(generate_ansi_color());
                true
            },
            None => false,
        };
        *self = Grid { cells };
        if painted {
            Some(self.frame(fill))
        } else {
            None
        }
    }
}

} // verus!
