use vstd::prelude::*;

use crate::indicator::{indicator, indicator_of, Mode, Modifier};
use crate::symbol::{recognized_symbol, Symbol};
use crate::text_buffer::{next_cursor, next_text, TextBuffer};

verus! {

/// The state that the edits of each tick change: the text with its cursor,
/// and the glyph shown at the cursor.
pub struct Model {
    pub text: TextBuffer,
    pub indicator: char,
}

impl Model {
    /// Well-formed: the text's cursor lies within it.
    pub open spec fn wf(&self) -> bool {
        self.text.wf()
    }

    /// Empty text, no strokes, and a blank glyph.
    pub fn new() -> (r: Model)
        ensures
            r.wf(),
            r.text.chars() == Seq::<char>::empty(),
            r.text.position() == 0,
            r.indicator == ' ',
    {
        Model { text: TextBuffer::new(), indicator: ' ' }
    }

    /// Takes in what the recognizer reported this tick: the character it read
    /// from the finished stroke, if any, edits the text, and its modifier and
    /// mode choose the glyph at the cursor.
    pub fn apply_recognition(&mut self, recognized: Option<char>, modifier: Modifier, mode: Mode)
        requires
            old(self).wf(),
        ensures
            final(self).wf(),
            final(self).text.chars() == next_text(
                old(self).text.chars(),
                old(self).text.position(),
                recognized_symbol(recognized),
            ),
            final(self).text.position() == next_cursor(
                old(self).text.chars(),
                old(self).text.position(),
                recognized_symbol(recognized),
            ),
            final(self).indicator == indicator_of(modifier, mode),
    {
        self.text.apply(Symbol::from_recognized(recognized));
        self.indicator = indicator(modifier, mode);
    }
}

} // verus!
