use vstd::prelude::*;

use crate::symbol::Symbol;

verus! {

/// The text after one recognized symbol has been applied to `text` with the
/// cursor at `cursor`.
pub open spec fn next_text(text: Seq<char>, cursor: int, s: Option<Symbol>) -> Seq<char> {
    match s {
        Some(Symbol::Backspace) => if cursor > 0 {
            text.remove(cursor - 1)
        } else {
            text
        },
        Some(Symbol::Newline) => Seq::empty(),
        Some(Symbol::Char(c)) => text.insert(cursor, c),
        _ => text,
    }
}

/// The cursor after one recognized symbol has been applied to `text` with
/// the cursor at `cursor`.
pub open spec fn next_cursor(text: Seq<char>, cursor: int, s: Option<Symbol>) -> int {
    match s {
        Some(Symbol::Backspace) => if cursor > 0 {
            cursor - 1
        } else {
            cursor
        },
        Some(Symbol::Left) => if cursor > 0 {
            cursor - 1
        } else {
            0
        },
        Some(Symbol::Right) => if cursor < text.len() {
            cursor + 1
        } else {
            text.len() as int
        },
        Some(Symbol::Newline) => 0,
        Some(Symbol::Char(_)) => cursor + 1,
        None => cursor,
    }
}

/// The text and cursor after the characters of `cs` have been typed, one
/// after the other, into `text` with the cursor at `cursor`.
pub open spec fn typed(text: Seq<char>, cursor: int, cs: Seq<char>) -> (Seq<char>, int)
    decreases cs.len(),
{
    if cs.len() == 0 {
        (text, cursor)
    } else {
        let (t, c) = typed(text, cursor, cs.drop_last());
        let s = Some(Symbol::Char(cs.last()));
        (next_text(t, c, s), next_cursor(t, c, s))
    }
}

/// Backspace with the cursor at the start changes neither text nor cursor.
pub proof fn lemma_backspace_at_start(text: Seq<char>)
    ensures
        next_text(text, 0, Some(Symbol::Backspace)) == text,
        next_cursor(text, 0, Some(Symbol::Backspace)) == 0,
{
}

/// The left arrow with the cursor at the start leaves it there; the right
/// arrow with the cursor at the end leaves it there.
pub proof fn lemma_arrows_at_bounds(text: Seq<char>)
    ensures
        next_cursor(text, 0, Some(Symbol::Left)) == 0,
        next_text(text, 0, Some(Symbol::Left)) == text,
        next_cursor(text, text.len() as int, Some(Symbol::Right)) == text.len(),
        next_text(text, text.len() as int, Some(Symbol::Right)) == text,
{
}

/// A newline empties the buffer and puts the cursor at the start, whatever
/// the buffer held.
pub proof fn lemma_newline_resets(text: Seq<char>, cursor: int)
    ensures
        next_text(text, cursor, Some(Symbol::Newline)) == Seq::<char>::empty(),
        next_cursor(text, cursor, Some(Symbol::Newline)) == 0,
{
}

/// Applying any symbol to a well-placed cursor leaves the cursor within the
/// new text.
pub proof fn lemma_cursor_stays_in_text(text: Seq<char>, cursor: int, s: Option<Symbol>)
    requires
        0 <= cursor <= text.len(),
    ensures
        0 <= next_cursor(text, cursor, s) <= next_text(text, cursor, s).len(),
{
}

/// Typing characters one after the other into an empty buffer gives exactly
/// those characters, with the cursor after the last of them.
pub proof fn lemma_typing_from_empty(cs: Seq<char>)
    ensures
        typed(Seq::empty(), 0, cs) == (cs, cs.len() as int),
    decreases cs.len(),
{
    if cs.len() > 0 {
        let init = cs.drop_last();
        lemma_typing_from_empty(init);
        assert(init.insert(init.len() as int, cs.last()) =~= cs);
    }
}

/// The text being composed, with the position at which the next character
/// goes. The cursor never leaves the text.
pub struct TextBuffer {
    text: Vec<char>,
    cursor: usize,
}

impl TextBuffer {
    /// Well-formed: the cursor lies within the text. Every buffer that
    /// `new` makes and `apply` leaves behind is well-formed.
    pub closed spec fn wf(&self) -> bool {
        self.cursor <= self.text@.len()
    }

    /// In a well-formed buffer the cursor lies between the start and the end
    /// of the text.
    pub proof fn lemma_cursor_in_text(&self)
        requires
            self.wf(),
        ensures
            0 <= self.position() <= self.chars().len(),
    {
    }

    /// The characters of the buffer.
    pub closed spec fn chars(&self) -> Seq<char> {
        self.text@
    }

    /// The position of the cursor.
    pub closed spec fn position(&self) -> int {
        self.cursor as int
    }

    /// An empty buffer with the cursor at its start.
    pub fn new() -> (r: TextBuffer)
        ensures
            r.chars() == Seq::<char>::empty(),
            r.position() == 0,
            r.wf(),
    {
        TextBuffer { text: Vec::new(), cursor: 0 }
    }

    /// The text to the left of the cursor and the text to its right.
    pub fn split_at_cursor(&self) -> (r: (Vec<char>, Vec<char>))
        requires
            self.wf(),
        ensures
            r.0@ == self.chars().subrange(0, self.position()),
            r.1@ == self.chars().subrange(self.position(), self.chars().len() as int),
    {
        let mut left: Vec<char> = Vec::new();
        let mut right: Vec<char> = Vec::new();
        let mut i: usize = 0;
        while i < self.text.len()
            invariant
                self.wf(),
                0 <= i <= self.text@.len(),
                i <= self.cursor ==> left@ == self.text@.subrange(0, i as int) && right@.len() == 0,
                i > self.cursor ==> left@ == self.text@.subrange(0, self.cursor as int)
                    && right@ == self.text@.subrange(self.cursor as int, i as int),
            decreases self.text@.len() - i,
        {
            if i < self.cursor {
                left.push(self.text[i]);
            } else {
                right.push(self.text[i]);
            }
            i = i + 1;
        }
        (left, right)
    }

    /// The characters of the buffer.
    pub fn text(&self) -> (r: &Vec<char>)
        ensures
            r@ == self.chars(),
    {
        &self.text
    }

    /// The position of the cursor.
    pub fn cursor(&self) -> (r: usize)
        ensures
            r == self.position(),
    {
        self.cursor
    }

    /// Applies one recognized symbol: backspace removes the character before
    /// the cursor, the arrows move the cursor within the text, a newline
    /// empties the buffer, any other character is inserted at the cursor, and
    /// nothing recognized changes nothing.
    pub fn apply(&mut self, s: Option<Symbol>)
        requires
            old(self).wf(),
        ensures
            final(self).wf(),
            final(self).chars() == next_text(old(self).chars(), old(self).position(), s),
            final(self).position() == next_cursor(old(self).chars(), old(self).position(), s),
    {
        match s {
            Some(Symbol::Backspace) => {
                if self.cursor > 0 {
                    self.cursor = self.cursor - 1;
                    self.text.remove(self.cursor);
                }
            },
            Some(Symbol::Left) => {
                if self.cursor > 0 {
                    self.cursor = self.cursor - 1;
                }
            },
            Some(Symbol::Right) => {
                if self.cursor < self.text.len() {
                    self.cursor = self.cursor + 1;
                }
            },
            Some(Symbol::Newline) => {
                self.text.clear();
                self.cursor = 0;
            },
            Some(Symbol::Char(c)) => {
                self.text.insert(self.cursor, c);
                let len: usize = self.text.len();
                proof {
                    assert(self.cursor < len);
                }
                self.cursor = self.cursor + 1;
            },
            None => {},
        }
    }
}

} // verus!
