//! The spaced mode: runs of the fill character, each closed by one
//! separator.

use vstd::prelude::*;
use vstd::arithmetic::div_mod::{lemma_add_mod_noop, lemma_mod_twice};
use crate::render::{colored_glyph, is_colored, Glyph};

verus! {

/// Whether the character at `position` of a run, counted from zero, is a
/// separator. With a spacing of `spaces` the characters come in groups of
/// `spaces + 1`: first `spaces` fill characters, then the separator.
pub open spec fn is_separator_position(spaces: nat, position: nat) -> bool {
    (position + 1) % (spaces + 1) == 0
}

/// The character at `position` of a run, counted from zero.
pub open spec fn spaced_char(fill: char, separator: char, spaces: nat, position: nat) -> char {
    if is_separator_position(spaces, position) {
        separator
    } else {
        fill
    }
}

/// A run never starts with a separator.
pub proof fn lemma_first_is_fill(fill: char, separator: char, spaces: nat)
    requires
        spaces >= 1,
    ensures
        !is_separator_position(spaces, 0),
        spaced_char(fill, separator, spaces, 0) == fill,
{
    assert(1nat % (spaces + 1) == 1) by (nonlinear_arith)
        requires
            spaces >= 1,
    ;
}

/// The separators are exactly the characters whose number, counted from
/// one, is a positive multiple of `spaces + 1`.
pub proof fn lemma_separator_positions(spaces: nat, position: nat)
    ensures
        is_separator_position(spaces, position) <==> exists|group: nat|
            group >= 1 && position + 1 == #[trigger] (group * (spaces + 1)),
{
    let size = spaces + 1;
    let number = position + 1;
    if is_separator_position(spaces, position) {
        let group = number / size;
        assert(number == size * group + number % size && group >= 1) by (nonlinear_arith)
            requires
                size >= 1,
                number >= 1,
                group == number / size,
                number % size == 0,
        ;
        assert(number == group * size) by (nonlinear_arith)
            requires
                number == size * group,
        ;
        assert(group >= 1 && position + 1 == group * (spaces + 1));
    }
    if exists|group: nat| group >= 1 && position + 1 == #[trigger] (group * (spaces + 1)) {
        let group = choose|group: nat| group >= 1 && position + 1 == #[trigger] (group * (spaces + 1));
        assert((group * size) % size == 0) by (nonlinear_arith)
            requires
                size >= 1,
        ;
    }
}

/// After a separator come exactly `spaces` fill characters and then the
/// next separator.
pub proof fn lemma_separator_period(spaces: nat, position: nat, offset: nat)
    requires
        is_separator_position(spaces, position),
        1 <= offset <= spaces + 1,
    ensures
        is_separator_position(spaces, position + offset) <==> offset == spaces + 1,
{
    let size = spaces + 1;
    let number = position + 1;
    assert((number + offset) % size == offset % size) by {
        lemma_add_mod_noop(number as int, offset as int, size as int);
        lemma_mod_twice(offset as int, size as int);
    }
    if offset == size {
        assert(offset % size == 0) by (nonlinear_arith)
            requires
                offset == size,
                size >= 1,
        ;
    } else {
        assert(offset % size == offset) by (nonlinear_arith)
            requires
                0 <= offset < size,
        ;
    }
    assert(position + offset + 1 == number + offset);
}

/// The state of one run of the spaced mode.
pub struct Spaced {
    fill: char,
    separator: char,
    spaces: usize,
    /// Fill characters emitted since the last separator.
    counter: usize,
    /// Characters emitted since the run began.
    emitted: Ghost<nat>,
}

impl Spaced {
    #[verifier::type_invariant]
    spec fn well_formed(self) -> bool {
        &&& self.spaces >= 1
        &&& self.counter <= self.spaces
        &&& self.counter == self.emitted@ % (self.spaces + 1) as nat
    }

    /// The character that fills the runs.
    pub closed spec fn fill(self) -> char {
        self.fill
    }

    /// The character that closes each run.
    pub closed spec fn separator(self) -> char {
        self.separator
    }

    /// The number of fill characters between two separators.
    pub closed spec fn spaces(self) -> nat {
        self.spaces as nat
    }

    /// The number of characters emitted so far.
    pub closed spec fn emitted(self) -> nat {
        self.emitted@
    }

    /// True when `self` is `before` one character later: the same
    /// characters and spacing, one more character emitted.
    pub open spec fn follows(self, before: Spaced) -> bool {
        &&& self.fill() == before.fill()
        &&& self.separator() == before.separator()
        &&& self.spaces() == before.spaces()
        &&& self.emitted() == before.emitted() + 1
    }

    /// A fresh run that puts one `separator` after every `spaces`
    /// characters `fill`. A spacing of zero would leave only separators and
    /// is refused.
    pub fn new(fill: char, separator: char, spaces: usize) -> (run: Option<Spaced>)
        ensures
            run is Some <==> spaces >= 1,
            run matches Some(run) ==> run.fill() == fill && run.separator() == separator
                && run.spaces() == spaces && run.emitted() == 0,
    {
        if spaces == 0 {
            None
        } else {
            assert(0nat % (spaces + 1) as nat == 0);
            Some(Spaced { fill, separator, spaces, counter: 0, emitted: Ghost(0) })
        }
    }

    /// The next character of the run.
    pub fn next_char(&mut self) -> (ch: char)
        ensures
            ch == spaced_char(
                old(self).fill(),
                old(self).separator(),
                old(self).spaces(),
                old(self).emitted(),
            ),
            final(self).follows(*old(self)),
    {
        proof {
            use_type_invariant(&*self);
        }
        let ghost size = (self.spaces + 1) as nat;
        let ghost emitted = self.emitted@;
        if self.counter == self.spaces {
            proof {
                assert((emitted + 1) % size == 0) by (nonlinear_arith)
                    requires
                        size >= 2,
                        emitted % size == size - 1,
                ;
            }
            *self = Spaced {
                fill: self.fill,
                separator: self.separator,
                spaces: self.spaces,
                counter: 0,
                emitted: Ghost(emitted + 1),
            };
            self.separator
        } else {
            proof {
                assert((emitted + 1) % size == emitted % size + 1) by (nonlinear_arith)
                    requires
                        size >= 2,
                        emitted % size < size - 1,
                ;
            }
            *self = Spaced {
                fill: self.fill,
                separator: self.separator,
                spaces: self.spaces,
                counter: self.counter + 1,
                emitted: Ghost(emitted + 1),
            };
            self.fill
        }
    }

    /// One tick of the spaced mode: the next character of the run, in a
    /// freshly drawn random color.
    pub fn tick(&mut self) -> (glyph: Glyph)
        ensures
            is_colored(
                glyph,
                spaced_char(
                    old(self).fill(),
                    old(self).separator(),
                    old(self).spaces(),
                    old(self).emitted(),
                ),
            ),
            final(self).follows(*old(self)),
    {
        colored_glyph(self.next_char())
    }
}

} // verus!
