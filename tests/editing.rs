use graffiti_vr::{indicator, Mode, Model, Modifier, Symbol, TextBuffer};

fn buffer_of(s: &str) -> TextBuffer {
    let mut b = TextBuffer::new();
    for c in s.chars() {
        b.apply(Some(Symbol::Char(c)));
    }
    b
}

#[test]
fn backspace_at_end_removes_last_char() {
    let mut b = buffer_of("abc");
    assert_eq!(b.cursor(), 3);
    b.apply(Some(Symbol::Backspace));
    assert_eq!(b.text(), &vec!['a', 'b']);
    assert_eq!(b.cursor(), 2);
}

#[test]
fn right_arrow_on_empty_buffer_stays_at_zero() {
    let mut b = TextBuffer::new();
    b.apply(Some(Symbol::Right));
    assert_eq!(b.cursor(), 0);
    assert!(b.text().is_empty());
}

#[test]
fn backspace_at_start_is_a_no_op() {
    let mut b = buffer_of("xy");
    b.apply(Some(Symbol::Left));
    b.apply(Some(Symbol::Left));
    assert_eq!(b.cursor(), 0);
    b.apply(Some(Symbol::Backspace));
    assert_eq!(b.text(), &vec!['x', 'y']);
    assert_eq!(b.cursor(), 0);
}

#[test]
fn backspace_in_middle_removes_char_before_cursor() {
    let mut b = buffer_of("abc");
    b.apply(Some(Symbol::Left));
    b.apply(Some(Symbol::Backspace));
    assert_eq!(b.text(), &vec!['a', 'c']);
    assert_eq!(b.cursor(), 1);
}

#[test]
fn arrows_stop_at_the_ends() {
    let mut b = buffer_of("ab");
    b.apply(Some(Symbol::Right));
    assert_eq!(b.cursor(), 2);
    b.apply(Some(Symbol::Left));
    assert_eq!(b.cursor(), 1);
    b.apply(Some(Symbol::Left));
    b.apply(Some(Symbol::Left));
    assert_eq!(b.cursor(), 0);
    assert_eq!(b.text(), &vec!['a', 'b']);
}

#[test]
fn newline_resets_buffer() {
    let mut b = buffer_of("hello");
    b.apply(Some(Symbol::Left));
    b.apply(Some(Symbol::Newline));
    assert!(b.text().is_empty());
    assert_eq!(b.cursor(), 0);
    b.apply(Some(Symbol::Newline));
    assert!(b.text().is_empty());
    assert_eq!(b.cursor(), 0);
}

#[test]
fn typing_from_empty_gives_the_characters() {
    let b = buffer_of("vr\u{3042}");
    assert_eq!(b.text(), &vec!['v', 'r', '\u{3042}']);
    assert_eq!(b.cursor(), 3);
}

#[test]
fn insert_goes_at_cursor() {
    let mut b = buffer_of("ac");
    b.apply(Some(Symbol::Left));
    b.apply(Some(Symbol::Char('b')));
    assert_eq!(b.text(), &vec!['a', 'b', 'c']);
    assert_eq!(b.cursor(), 2);
}

#[test]
fn nothing_recognized_changes_nothing() {
    let mut b = buffer_of("ab");
    b.apply(Some(Symbol::Left));
    b.apply(None);
    assert_eq!(b.text(), &vec!['a', 'b']);
    assert_eq!(b.cursor(), 1);
}

#[test]
fn split_at_cursor_gives_both_sides() {
    let mut b = buffer_of("abcd");
    b.apply(Some(Symbol::Left));
    b.apply(Some(Symbol::Left));
    let (l, r) = b.split_at_cursor();
    assert_eq!(l, vec!['a', 'b']);
    assert_eq!(r, vec!['c', 'd']);
    let (l, r) = TextBuffer::new().split_at_cursor();
    assert!(l.is_empty() && r.is_empty());
}

#[test]
fn command_characters_decode_to_commands() {
    assert_eq!(Symbol::from_char('\u{8}'), Symbol::Backspace);
    assert_eq!(Symbol::from_char('\u{2190}'), Symbol::Left);
    assert_eq!(Symbol::from_char('\u{2192}'), Symbol::Right);
    assert_eq!(Symbol::from_char('\n'), Symbol::Newline);
    assert_eq!(Symbol::from_char('q'), Symbol::Char('q'));
    assert_eq!(Symbol::from_recognized(None), None);
    assert_eq!(Symbol::from_recognized(Some('\n')), Some(Symbol::Newline));
}

#[test]
fn symbol_modifier_wins_over_number_mode() {
    assert_eq!(indicator(Modifier::Symbol, Mode::Number), '.');
}

#[test]
fn indicator_precedence() {
    assert_eq!(indicator(Modifier::Symbol, Mode::Text), '.');
    assert_eq!(indicator(Modifier::Caps, Mode::Number), '^');
    assert_eq!(indicator(Modifier::Caps, Mode::Text), '^');
    assert_eq!(indicator(Modifier::Plain, Mode::Number), '#');
    assert_eq!(indicator(Modifier::Plain, Mode::Text), ' ');
}

#[test]
fn model_applies_recognition() {
    let mut m = Model::new();
    assert_eq!(m.indicator, ' ');
    m.apply_recognition(Some('h'), Modifier::Plain, Mode::Text);
    m.apply_recognition(Some('i'), Modifier::Caps, Mode::Text);
    m.apply_recognition(Some('\u{2190}'), Modifier::Plain, Mode::Number);
    assert_eq!(m.text.text(), &vec!['h', 'i']);
    assert_eq!(m.text.cursor(), 1);
    assert_eq!(m.indicator, '#');
    m.apply_recognition(Some('\u{8}'), Modifier::Symbol, Mode::Number);
    assert_eq!(m.text.text(), &vec!['i']);
    assert_eq!(m.text.cursor(), 0);
    assert_eq!(m.indicator, '.');
    m.apply_recognition(None, Modifier::Plain, Mode::Text);
    assert_eq!(m.text.text(), &vec!['i']);
    assert_eq!(m.indicator, ' ');
}
