use vstd::prelude::*;

verus! {

/// The backspace control character, as the recognizer reports it.
pub const BACKSPACE_CHAR: char = '\u{8}';

/// The leftwards arrow, as the recognizer reports it.
pub const LEFT_CHAR: char = '\u{2190}';

/// The rightwards arrow, as the recognizer reports it.
pub const RIGHT_CHAR: char = '\u{2192}';

/// The line feed, as the recognizer reports it.
pub const NEWLINE_CHAR: char = '\n';

/// A recognized symbol, with the editing commands told apart from the
/// characters that are typed.
#[derive(Clone, Copy, Debug, PartialEq, Eq, Structural)]
pub enum Symbol {
    Backspace,
    Left,
    Right,
    Newline,
    Char(char),
}

/// The symbol that a recognized character stands for.
pub open spec fn symbol_of(c: char) -> Symbol {
    if c == BACKSPACE_CHAR {
        Symbol::Backspace
    } else if c == LEFT_CHAR {
        Symbol::Left
    } else if c == RIGHT_CHAR {
        Symbol::Right
    } else if c == NEWLINE_CHAR {
        Symbol::Newline
    } else {
        Symbol::Char(c)
    }
}

/// The symbol for what the recognizer returned, if anything.
pub open spec fn recognized_symbol(c: Option<char>) -> Option<Symbol> {
    match c {
        Some(c) => Some(symbol_of(c)),
        None => None,
    }
}

impl Symbol {
    /// Tells the command characters apart from the ones that are typed.
    pub fn from_char(c: char) -> (r: Symbol)
        ensures
            r == symbol_of(c),
    {
        if c == BACKSPACE_CHAR {
            Symbol::Backspace
        } else if c == LEFT_CHAR {
            Symbol::Left
        } else if c == RIGHT_CHAR {
            Symbol::Right
        } else if c == NEWLINE_CHAR {
            Symbol::Newline
        } else {
            Symbol::Char(c)
        }
    }

    /// The symbol for what the recognizer returned, if it returned anything.
    pub fn from_recognized(c: Option<char>) -> (r: Option<Symbol>)
        ensures
            r == recognized_symbol(c),
    {
        match c {
            Some(c) => Some(Symbol::from_char(c)),
            None => None,
        }
    }
}

} // verus!
