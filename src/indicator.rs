use vstd::prelude::*;

verus! {

/// How the recognizer will read the next symbol; `Plain` when no modifier
/// is set.
#[derive(Clone, Copy, Debug, PartialEq, Eq, Structural)]
pub enum Modifier {
    Plain,
    Caps,
    Symbol,
}

/// Which alphabet the recognizer is reading from: numbers, or any of the
/// others.
#[derive(Clone, Copy, Debug, PartialEq, Eq, Structural)]
pub enum Mode {
    Text,
    Number,
}

/// The glyph shown at the cursor: a symbol modifier first, then caps, then
/// number mode, else a blank.
pub open spec fn indicator_of(modifier: Modifier, mode: Mode) -> char {
    match modifier {
        Modifier::Symbol => '.',
        Modifier::Caps => '^',
        Modifier::Plain => if mode == Mode::Number {
            '#'
        } else {
            ' '
        },
    }
}

/// The glyph shown at the cursor for the recognizer's modifier and mode.
pub fn indicator(modifier: Modifier, mode: Mode) -> (r: char)
    ensures
        r == indicator_of(modifier, mode),
{
    match modifier {
        Modifier::Symbol => '.',
        Modifier::Caps => '^',
        Modifier::Plain => match mode {
            Mode::Number => '#',
            Mode::Text => ' ',
        },
    }
}

/// A modifier wins over the mode: with the symbol modifier the glyph is `.`
/// and with caps it is `^`, in every mode.
pub proof fn lemma_modifier_over_mode(mode: Mode)
    ensures
        indicator_of(Modifier::Symbol, mode) == '.',
        indicator_of(Modifier::Caps, mode) == '^',
{
}

} // verus!
