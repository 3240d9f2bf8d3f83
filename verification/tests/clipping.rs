use text_input::{text_input, Event, Key, PaintText, TextInput, TextLayout};

fn chars(s: &str) -> Vec<char> {
    s.chars().collect()
}

/// A field over `n` copies of 'x', shaped with every character `advance`
/// pixels wide, `line_height` pixels tall.
fn shaped_field(n: usize, advance: u64, line_height: u64) -> TextInput {
    let mut t = text_input(vec!['x'; n]);
    let positions: Vec<u64> = (0..=n as u64).map(|i| i * advance).collect();
    let applied = t.update_text_layout(positions, line_height);
    assert!(applied);
    t
}

#[test]
fn hit_point_picks_the_boundary_at_or_before_the_coordinate() {
    let layout = TextLayout { positions: vec![0, 7, 14], line_height: 10 };
    assert_eq!(layout.hit_point(0), 0);
    assert_eq!(layout.hit_point(6), 0);
    assert_eq!(layout.hit_point(7), 1);
    assert_eq!(layout.hit_point(13), 1);
    assert_eq!(layout.hit_point(14), 2);
    assert_eq!(layout.hit_point(1000), 2);
}

#[test]
fn hit_position_reads_the_boundary_coordinate() {
    let layout = TextLayout { positions: vec![0, 7, 14], line_height: 10 };
    assert_eq!(layout.hit_position(0), 0);
    assert_eq!(layout.hit_position(1), 7);
    assert_eq!(layout.hit_position(2), 14);
    assert_eq!(layout.rendered_width(), 14);
}

#[test]
fn sub_layout_rebases_the_boundaries() {
    let layout = TextLayout { positions: vec![0, 10, 30, 60], line_height: 12 };
    let sub = layout.sub_layout(1, 3);
    assert_eq!(sub.positions, vec![0, 20, 50]);
    assert_eq!(sub.line_height, 12);
}

#[test]
fn no_clip_when_the_text_fits_the_box() {
    // 5 characters, 10px each: 50px wide in a 100px box.
    let mut t = shaped_field(5, 10, 14);
    t.set_cursor_glyph_idx(3);
    t.recompute_clip(100);
    assert!(t.clip_txt_buf.is_none());
    assert!(t.clipped_text.is_none());
    assert_eq!(t.clip_start_idx, 0);
    assert_eq!(t.clip_start_x, 0);
    assert_eq!(t.cursor_x, 30);
}

#[test]
fn overflow_with_cursor_at_the_end_anchors_the_right_edge() {
    // 50 characters, 10px each: 500px wide in a 100px box, cursor at the end.
    let mut t = shaped_field(50, 10, 14);
    t.set_cursor_glyph_idx(50);
    t.recompute_clip(100);
    let clipped = t.clip_txt_buf.as_ref().expect("clipping active");
    assert_eq!(t.clip_start_x, 400);
    assert_eq!(t.clip_start_idx, 40);
    assert_eq!(t.clipped_text.as_ref().unwrap().len(), 10);
    assert!(clipped.rendered_width() <= 100);
    assert_eq!(t.clip_offset_x, clipped.rendered_width() - 100);
    assert_eq!(t.cursor_x, 100);
}

#[test]
fn overflow_with_unaligned_boundaries_cuts_the_first_visible_character() {
    // 100 characters, 7px each: 700px wide in a 100px box, cursor at the end.
    // The window starts at 600px, inside the character whose boundaries are
    // 595 and 602, so the visible substring starts at index 85 and its
    // rendered width overshoots the box by 5px; the clip offset hides the
    // overshoot on the left.
    let mut t = shaped_field(100, 7, 14);
    t.set_cursor_glyph_idx(100);
    t.recompute_clip(100);
    assert_eq!(t.clip_start_x, 600);
    assert_eq!(t.clip_start_idx, 85);
    assert_eq!(t.clipped_text.as_ref().unwrap().len(), 15);
    let clipped = t.clip_txt_buf.as_ref().unwrap();
    assert_eq!(clipped.rendered_width(), 105);
    assert_eq!(t.clip_offset_x, 5);
    assert_eq!(t.cursor_x, 100);
}

#[test]
fn cursor_stays_inside_the_visible_window() {
    let mut t = shaped_field(50, 10, 14);
    for cursor in [0usize, 7, 23, 50] {
        t.set_cursor_glyph_idx(cursor);
        t.recompute_clip(100);
        if let Some(clipped) = t.clipped_text.as_ref() {
            let start = t.clip_start_idx;
            let end = start + clipped.len();
            assert!(start <= cursor && cursor <= end);
        }
    }
}

#[test]
fn scrolling_back_to_the_start_anchors_the_left_edge() {
    let mut t = shaped_field(50, 10, 14);
    t.set_cursor_glyph_idx(50);
    t.recompute_clip(100);
    assert_eq!(t.clip_start_x, 400);
    t.set_cursor_glyph_idx(0);
    t.recompute_clip(100);
    assert_eq!(t.clip_start_x, 0);
    assert_eq!(t.clip_start_idx, 0);
    assert_eq!(t.clipped_text.as_ref().unwrap().len(), 10);
    assert_eq!(t.clip_offset_x, 0);
    assert_eq!(t.cursor_x, 0);
}

#[test]
fn recomputing_the_clip_twice_changes_nothing() {
    let mut t = shaped_field(100, 7, 14);
    t.set_cursor_glyph_idx(63);
    t.recompute_clip(100);
    let start_x = t.clip_start_x;
    let start_idx = t.clip_start_idx;
    let offset = t.clip_offset_x;
    let cursor_x = t.cursor_x;
    let text = t.clipped_text.clone();
    let positions = t.clip_txt_buf.as_ref().map(|l| l.positions.clone());
    t.recompute_clip(100);
    assert_eq!(t.clip_start_x, start_x);
    assert_eq!(t.clip_start_idx, start_idx);
    assert_eq!(t.clip_offset_x, offset);
    assert_eq!(t.cursor_x, cursor_x);
    assert_eq!(t.clipped_text, text);
    assert_eq!(t.clip_txt_buf.as_ref().map(|l| l.positions.clone()), positions);
}

#[test]
fn clipped_substring_matches_the_window_indices() {
    let mut t = text_input(chars("abcdefghij"));
    let positions: Vec<u64> = (0..=10u64).map(|i| i * 10).collect();
    assert!(t.update_text_layout(positions, 14));
    t.set_cursor_glyph_idx(10);
    t.recompute_clip(30);
    assert_eq!(t.clip_start_idx, 7);
    assert_eq!(t.clipped_text.as_ref().unwrap(), &chars("hij"));
}

#[test]
fn paint_of_an_unfocused_empty_field_draws_nothing() {
    let mut t = text_input(chars(""));
    assert!(t.update_text_layout(vec![0], 14));
    let plan = t.paint(0, 0, 100, false);
    assert!(plan.text.is_none());
    assert!(plan.cursor.is_none());
}

#[test]
fn paint_of_a_fitting_line_draws_the_full_layout() {
    let mut t = shaped_field(5, 10, 14);
    t.set_cursor_glyph_idx(2);
    let plan = t.paint(3, 4, 100, true);
    assert!(matches!(plan.text, Some(PaintText::Full)));
    let cursor = plan.cursor.expect("focused field paints a cursor");
    assert_eq!(cursor.x0, 20 + 3);
    assert_eq!(cursor.y0, 4);
    assert_eq!(cursor.x1, 20 + 3 + 1);
    assert_eq!(cursor.y1, 4 + 14);
}

#[test]
fn paint_of_an_overflowing_line_draws_the_clipped_layout() {
    let mut t = shaped_field(100, 7, 14);
    t.set_cursor_glyph_idx(100);
    let plan = t.paint(0, 0, 100, true);
    match plan.text {
        Some(PaintText::Clipped { offset_x }) => assert_eq!(offset_x, 5),
        other => panic!("expected a clipped draw, got {:?}", other),
    }
    let cursor = plan.cursor.expect("focused field paints a cursor");
    assert_eq!(cursor.x0, 100);
    assert!(plan.cursor.is_some());
}

#[test]
fn paint_without_focus_draws_no_cursor() {
    let mut t = shaped_field(5, 10, 14);
    t.set_cursor_glyph_idx(1);
    let plan = t.paint(0, 0, 100, false);
    assert!(matches!(plan.text, Some(PaintText::Full)));
    assert!(plan.cursor.is_none());
}

#[test]
fn update_text_layout_rejects_positions_that_do_not_fit_the_buffer() {
    let mut t = text_input(chars("ab"));
    assert!(!t.update_text_layout(vec![0, 10], 14));
    assert!(t.text_buf.is_none());
    assert!(!t.update_text_layout(vec![0, 10, 10], 14));
    assert!(t.text_buf.is_none());
    assert!(!t.update_text_layout(vec![5, 10, 20], 14));
    assert!(t.text_buf.is_none());
    assert!(t.update_text_layout(vec![0, 10, 20], 14));
    assert!(t.text_buf.is_some());
}

#[test]
fn update_text_layout_sets_the_preferred_size() {
    let mut t = text_input(chars("a"));
    assert!(t.update_text_layout(vec![0, 9], 14));
    assert_eq!(t.width, 10 * u64::from(text_input::DEFAULT_FONT_SIZE));
    assert_eq!(t.height, u64::from(text_input::DEFAULT_FONT_SIZE));
}

#[test]
fn editing_marks_the_layout_stale() {
    let mut t = shaped_field(3, 10, 14);
    assert!(!t.needs_layout());
    let handled = t.event(Event::KeyDown(Key::Character('y')), true);
    assert!(handled);
    assert!(t.needs_layout());
}
