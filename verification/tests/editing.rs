use text_input::{text_input, Color, Direction, Event, Key, Movement, TextStyle};

fn chars(s: &str) -> Vec<char> {
    s.chars().collect()
}

#[test]
fn typing_hello_one_character_at_a_time() {
    let mut t = text_input(chars(""));
    for ch in "Hello".chars() {
        let handled = t.event(Event::KeyDown(Key::Character(ch)), true);
        assert!(handled);
    }
    assert_eq!(t.buffer, chars("Hello"));
    assert_eq!(t.cursor_glyph_idx, 5);
}

#[test]
fn backspace_at_end_removes_last_character() {
    let mut t = text_input(chars("Hello"));
    t.set_cursor_glyph_idx(5);
    let handled = t.event(Event::KeyDown(Key::Backspace), true);
    assert!(handled);
    assert_eq!(t.buffer, chars("Hell"));
    assert_eq!(t.cursor_glyph_idx, 4);
}

#[test]
fn home_at_start_is_a_no_op_and_end_jumps_to_the_end() {
    let mut t = text_input(chars("abc"));
    assert_eq!(t.cursor_glyph_idx, 0);
    let handled_home = t.event(Event::KeyDown(Key::Home), true);
    assert!(!handled_home);
    assert_eq!(t.cursor_glyph_idx, 0);
    assert_eq!(t.buffer, chars("abc"));
    let handled_end = t.event(Event::KeyDown(Key::End), true);
    assert!(handled_end);
    assert_eq!(t.cursor_glyph_idx, 3);
}

#[test]
fn arrow_left_then_arrow_right_returns_to_the_same_place() {
    let mut t = text_input(chars("ab"));
    t.set_cursor_glyph_idx(1);
    let left = t.event(Event::KeyDown(Key::ArrowLeft), true);
    assert!(left);
    assert_eq!(t.cursor_glyph_idx, 0);
    let right = t.event(Event::KeyDown(Key::ArrowRight), true);
    assert!(right);
    assert_eq!(t.cursor_glyph_idx, 1);
    assert_eq!(t.buffer, chars("ab"));
}

#[test]
fn insert_then_backspace_restores_buffer_and_cursor() {
    let mut t = text_input(chars("world"));
    t.set_cursor_glyph_idx(3);
    assert!(t.insert_character('x'));
    assert_eq!(t.buffer, chars("worxld"));
    assert_eq!(t.cursor_glyph_idx, 4);
    assert!(t.delete_before_cursor());
    assert_eq!(t.buffer, chars("world"));
    assert_eq!(t.cursor_glyph_idx, 3);
}

#[test]
fn move_left_at_start_reports_no_change() {
    let mut t = text_input(chars("abc"));
    let changed = t.move_cursor(Movement::Glyph, Direction::Left);
    assert!(!changed);
    assert_eq!(t.cursor_glyph_idx, 0);
    assert_eq!(t.buffer, chars("abc"));
}

#[test]
fn delete_on_empty_buffer_reports_no_change() {
    let mut t = text_input(chars(""));
    let handled = t.delete_before_cursor();
    assert!(!handled);
    assert_eq!(t.buffer, chars(""));
    assert_eq!(t.cursor_glyph_idx, 0);
}

#[test]
fn word_movement_is_not_implemented_and_reports_no_change() {
    let mut t = text_input(chars("abc"));
    t.set_cursor_glyph_idx(2);
    let changed = t.move_cursor(Movement::Word, Direction::Right);
    assert!(!changed);
    assert_eq!(t.cursor_glyph_idx, 2);
}

#[test]
fn insert_in_the_middle_of_the_buffer() {
    let mut t = text_input(chars("ac"));
    t.set_cursor_glyph_idx(1);
    let handled = t.event(Event::KeyDown(Key::Character('b')), true);
    assert!(handled);
    assert_eq!(t.buffer, chars("abc"));
    assert_eq!(t.cursor_glyph_idx, 2);
}

#[test]
fn unidentified_key_is_left_unhandled() {
    let mut t = text_input(chars("ab"));
    t.set_cursor_glyph_idx(1);
    let handled = t.event(Event::KeyDown(Key::Unidentified), true);
    assert!(!handled);
    assert_eq!(t.buffer, chars("ab"));
    assert_eq!(t.cursor_glyph_idx, 1);
}

#[test]
fn unfocused_field_handles_nothing() {
    let mut t = text_input(chars("ab"));
    let handled = t.event(Event::KeyDown(Key::Character('x')), false);
    assert!(!handled);
    assert_eq!(t.buffer, chars("ab"));
    let pointer = t.event(Event::PointerDown, false);
    assert!(!pointer);
}

#[test]
fn pointer_down_moves_cursor_to_the_end() {
    let mut t = text_input(chars("abcd"));
    let handled = t.event(Event::PointerDown, true);
    assert!(handled);
    assert_eq!(t.cursor_glyph_idx, 4);
    assert_eq!(t.buffer, chars("abcd"));
}

#[test]
fn set_buffer_keeps_the_cursor_when_it_fits_and_clamps_it_otherwise() {
    let mut t = text_input(chars("hello"));
    t.set_cursor_glyph_idx(5);
    t.set_buffer(chars("hi"));
    assert_eq!(t.buffer, chars("hi"));
    assert_eq!(t.cursor_glyph_idx, 2);
    t.set_buffer(chars("hello again"));
    assert_eq!(t.cursor_glyph_idx, 2);
}

#[test]
fn text_attrs_fall_back_to_black() {
    let t = text_input(chars(""));
    let attrs = t.get_text_attrs();
    assert_eq!(attrs.color, Color { r: 0, g: 0, b: 0, a: 255 });
    assert_eq!(attrs.font_size, text_input::DEFAULT_FONT_SIZE);
    assert!(attrs.font_family.is_none());
    assert!(attrs.font_weight.is_none());
    assert!(attrs.font_style.is_none());
}

#[test]
fn sync_style_detects_a_change_and_marks_the_layout_stale() {
    let mut t = text_input(chars("ab"));
    let style = TextStyle {
        color: None,
        font_size: text_input::DEFAULT_FONT_SIZE,
        font_family: None,
        font_weight: None,
        font_style: None,
    };
    assert!(!t.text_layout_changed(&style));
    assert!(!t.sync_style(&style));
    let bigger = TextStyle {
        color: None,
        font_size: 20,
        font_family: Some("serif".to_string()),
        font_weight: None,
        font_style: None,
    };
    assert!(t.text_layout_changed(&bigger));
    assert!(t.sync_style(&bigger));
    assert_eq!(t.font_size, 20);
    assert_eq!(t.font_family.as_deref(), Some("serif"));
    assert!(t.text_buf.is_none());
    assert!(!t.sync_style(&bigger));
}
