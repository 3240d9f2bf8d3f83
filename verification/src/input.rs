//! The single-line editable text field.
//!
//! `TextInput` owns the field's state: the character buffer, the cursor
//! position in character units, the shaped layout of the whole buffer, and
//! the clipped window shown when the shaped text is wider than the box the
//! field was allocated. Every state change goes through one of the
//! transition functions below; each says exactly what it does to the state.

use vstd::prelude::*;

use crate::layout::PIXEL_LIMIT;
use crate::layout::TextLayout;
use crate::layout::strictly_increasing;

verus! {

/// Font size used until the style context supplies one.
pub const DEFAULT_FONT_SIZE: u32 = 14;

/// Granularity of a cursor movement.
#[derive(Clone, Copy, Debug)]
pub enum Movement {
    Glyph,
    Word,
    Line,
}

/// Direction of a cursor movement.
#[derive(Clone, Copy, Debug)]
pub enum Direction {
    Left,
    Right,
}

/// An RGBA color.
#[derive(Clone, Copy, Debug, PartialEq, Eq, Structural)]
pub struct Color {
    pub r: u8,
    pub g: u8,
    pub b: u8,
    pub a: u8,
}

impl Color {
    /// Opaque black, the fallback text color.
    pub open spec fn spec_black() -> Color {
        Color { r: 0, g: 0, b: 0, a: 255 }
    }

    /// Opaque black, the fallback text color.
    pub fn black() -> (c: Color)
        ensures
            c == Color::spec_black(),
    {
        Color { r: 0, g: 0, b: 0, a: 255 }
    }
}

/// Posture of the font face.
#[derive(Clone, Copy, Debug, PartialEq, Eq, Structural)]
pub enum FontStyle {
    Normal,
    Italic,
    Oblique,
}

/// The keys the field reacts to. Anything else the host maps to
/// `Unidentified`, which the field leaves unhandled on purpose.
#[derive(Clone, Copy, Debug)]
pub enum Key {
    Character(char),
    Backspace,
    Home,
    End,
    ArrowLeft,
    ArrowRight,
    Unidentified,
}

/// An input event as the host hands it to the field.
#[derive(Clone, Copy, Debug)]
pub enum Event {
    KeyDown(Key),
    PointerDown,
}

/// The inherited style the host reads from its style context each pass.
pub struct TextStyle {
    pub color: Option<Color>,
    pub font_size: u32,
    pub font_family: Option<String>,
    pub font_weight: Option<u16>,
    pub font_style: Option<FontStyle>,
}

/// Two optional family names spell the same family.
pub open spec fn same_family(a: Option<String>, b: Option<String>) -> bool {
    match (a, b) {
        (Option::None, Option::None) => true,
        (Option::Some(x), Option::Some(y)) => x@ == y@,
        _ => false,
    }
}

/// Where the cursor lands when it moves with the given granularity and
/// direction from `cursor` in a buffer of `len` characters. `Word` movement
/// is not implemented and leaves the cursor in place.
pub open spec fn moved_cursor(cursor: int, len: int, movement: Movement, direction: Direction) -> int {
    match (movement, direction) {
        (Movement::Glyph, Direction::Left) => if cursor >= 1 {
            cursor - 1
        } else {
            cursor
        },
        (Movement::Glyph, Direction::Right) => if cursor < len {
            cursor + 1
        } else {
            cursor
        },
        (Movement::Line, Direction::Left) => 0,
        (Movement::Line, Direction::Right) => len,
        (Movement::Word, _) => cursor,
    }
}

/// The buffer after `key` is pressed with the cursor at `cursor`.
pub open spec fn key_buffer(buffer: Seq<char>, cursor: int, key: Key) -> Seq<char> {
    match key {
        Key::Character(ch) => buffer.insert(cursor, ch),
        Key::Backspace => if cursor > 0 {
            buffer.remove(cursor - 1)
        } else {
            buffer
        },
        _ => buffer,
    }
}

/// Where the cursor stands after `key` is pressed.
pub open spec fn key_cursor(buffer: Seq<char>, cursor: int, key: Key) -> int {
    match key {
        Key::Character(_) => cursor + 1,
        Key::Backspace => if cursor > 0 {
            cursor - 1
        } else {
            cursor
        },
        Key::Home => moved_cursor(cursor, buffer.len() as int, Movement::Line, Direction::Left),
        Key::End => moved_cursor(cursor, buffer.len() as int, Movement::Line, Direction::Right),
        Key::ArrowLeft => moved_cursor(cursor, buffer.len() as int, Movement::Glyph, Direction::Left),
        Key::ArrowRight => moved_cursor(
            cursor,
            buffer.len() as int,
            Movement::Glyph,
            Direction::Right,
        ),
        Key::Unidentified => cursor,
    }
}

/// Whether the field reports `key` as handled: exactly when the press
/// changed the buffer or the cursor.
pub open spec fn key_handled(buffer: Seq<char>, cursor: int, key: Key) -> bool {
    match key {
        Key::Character(_) => true,
        Key::Backspace => cursor > 0,
        Key::Home => cursor > 0,
        Key::End => cursor < buffer.len(),
        Key::ArrowLeft => cursor > 0,
        Key::ArrowRight => cursor < buffer.len(),
        Key::Unidentified => false,
    }
}

/// Whether `key` edits the buffer (and so leaves the shaped layout stale).
pub open spec fn key_edits(cursor: int, key: Key) -> bool {
    match key {
        Key::Character(_) => true,
        Key::Backspace => cursor > 0,
        _ => false,
    }
}

/// The single-line editable text field.
pub struct TextInput {
    /// The text being edited, in character units.
    pub buffer: Vec<char>,
    /// Cursor position: a character boundary, `0 ..= buffer.len()`.
    pub cursor_glyph_idx: usize,
    /// Pixel x of the cursor inside the visible (possibly clipped) text.
    pub cursor_x: u64,
    /// Shaped layout of the whole buffer; `None` while stale.
    pub text_buf: Option<TextLayout>,
    /// The substring currently shown when clipping is active.
    pub clipped_text: Option<Vec<char>>,
    /// Character index where the visible window starts.
    pub clip_start_idx: usize,
    /// Pixel x into the full layout where the visible window starts.
    pub clip_start_x: u64,
    /// Shaped layout of the visible window; `None` when nothing is clipped.
    pub clip_txt_buf: Option<TextLayout>,
    /// Extra leftward shift applied when the window was scrolled forward, so
    /// the character under the cursor stays flush with the right edge.
    pub clip_offset_x: u64,
    /// Cached style snapshot, used to detect when a relayout is required.
    pub color: Option<Color>,
    /// Cached font size in pixels.
    pub font_size: u32,
    /// Preferred width the field asks the layout pass for.
    pub width: u64,
    /// Preferred height the field asks the layout pass for.
    pub height: u64,
    /// Cached font family list, unparsed.
    pub font_family: Option<String>,
    /// Cached font weight.
    pub font_weight: Option<u16>,
    /// Cached font posture.
    pub font_style: Option<FontStyle>,
    /// Width of the painted cursor bar in pixels.
    pub cursor_width: u64,
}

impl TextInput {
    /// Well-formedness: the cursor is a valid character boundary, the shaped
    /// layouts (when present) match the buffer, and every cached pixel
    /// coordinate is in range.
    pub open spec fn wf(&self) -> bool {
        &&& self.cursor_glyph_idx <= self.buffer@.len()
        &&& match self.text_buf {
            Option::Some(l) => l.wf() && l.char_count() == self.buffer@.len(),
            Option::None => true,
        }
        &&& match self.clip_txt_buf {
            Option::Some(cl) => {
                &&& cl.wf()
                &&& self.text_buf is Some
                &&& match self.clipped_text {
                    Option::Some(t) => {
                        &&& t@.len() == cl.char_count()
                        &&& self.clip_start_idx + t@.len() <= self.buffer@.len()
                        &&& t@ == self.buffer@.subrange(
                            self.clip_start_idx as int,
                            self.clip_start_idx + t@.len(),
                        )
                    },
                    Option::None => false,
                }
            },
            Option::None => self.clipped_text is None,
        }
        &&& self.cursor_x <= PIXEL_LIMIT
        &&& self.clip_start_x <= PIXEL_LIMIT
        &&& self.clip_offset_x <= PIXEL_LIMIT
        &&& self.cursor_width <= PIXEL_LIMIT
    }

    /// The visible window `[start, end)` of the buffer, in character
    /// indices, when clipping is active.
    pub open spec fn visible_window(&self) -> Option<(int, int)> {
        match self.clipped_text {
            Option::Some(t) => Option::Some(
                (self.clip_start_idx as int, self.clip_start_idx + t@.len()),
            ),
            Option::None => Option::None,
        }
    }

    /// The cached style matches the font part of `style` (the layout pass
    /// does not track color).
    pub open spec fn same_font(&self, style: &TextStyle) -> bool {
        &&& self.font_size == style.font_size
        &&& same_family(self.font_family, style.font_family)
        &&& self.font_weight == style.font_weight
        &&& self.font_style == style.font_style
    }

    /// The cached style matches `style` entirely, color included.
    pub open spec fn same_style(&self, style: &TextStyle) -> bool {
        &&& self.same_font(style)
        &&& self.color == style.color
    }

    /// Moves the cursor one step of the given granularity and direction.
    /// Returns whether the position actually changed; at a boundary already
    /// reached nothing moves and the call reports no change.
    pub fn move_cursor(&mut self, move_kind: Movement, direction: Direction) -> (changed: bool)
        requires
            old(self).wf(),
        ensures
            final(self).wf(),
            final(self).cursor_glyph_idx as int == moved_cursor(
                old(self).cursor_glyph_idx as int,
                old(self).buffer@.len() as int,
                move_kind,
                direction,
            ),
            changed == (final(self).cursor_glyph_idx != old(self).cursor_glyph_idx),
            (*final(self) == (TextInput {
                cursor_glyph_idx: final(self).cursor_glyph_idx,
                ..*old(self)
            })),
    {
        match (move_kind, direction) {
            (Movement::Glyph, Direction::Left) => {
                if self.cursor_glyph_idx >= 1 {
                    self.cursor_glyph_idx = self.cursor_glyph_idx - 1;
                    return true;
                }
                false
            },
            (Movement::Glyph, Direction::Right) => {
                if self.cursor_glyph_idx < self.buffer.len() {
                    self.cursor_glyph_idx = self.cursor_glyph_idx + 1;
                    return true;
                }
                false
            },
            (Movement::Line, Direction::Right) => {
                if self.cursor_glyph_idx < self.buffer.len() {
                    self.cursor_glyph_idx = self.buffer.len();
                    return true;
                }
                false
            },
            (Movement::Line, Direction::Left) => {
                if self.cursor_glyph_idx > 0 {
                    self.cursor_glyph_idx = 0;
                    return true;
                }
                false
            },
            (_, _) => false,
        }
    }

    /// Inserts `ch` at the cursor and advances the cursor past it. Always
    /// handled; insertion at the end of the buffer is valid. The shaped
    /// layouts are left stale for the next layout pass.
    pub fn insert_character(&mut self, ch: char) -> (handled: bool)
        requires
            old(self).wf(),
        ensures
            final(self).wf(),
            final(self).buffer@ == old(self).buffer@.insert(old(self).cursor_glyph_idx as int, ch),
            final(self).cursor_glyph_idx == old(self).cursor_glyph_idx + 1,
            handled,
            (*final(self) == (TextInput {
                buffer: final(self).buffer,
                cursor_glyph_idx: final(self).cursor_glyph_idx,
                text_buf: Option::None,
                clipped_text: Option::None,
                clip_txt_buf: Option::None,
                ..*old(self)
            })),
    {
        let idx = self.cursor_glyph_idx;
        self.buffer.insert(idx, ch);
        self.text_buf = None;
        self.clipped_text = None;
        self.clip_txt_buf = None;
        self.move_cursor(Movement::Glyph, Direction::Right)
    }

    /// Removes the character just before the cursor and steps the cursor
    /// back. Reports no change when the buffer is empty or the cursor is at
    /// the start.
    pub fn delete_before_cursor(&mut self) -> (handled: bool)
        requires
            old(self).wf(),
        ensures
            final(self).wf(),
            handled == (old(self).cursor_glyph_idx > 0),
            old(self).cursor_glyph_idx > 0 ==> {
                &&& final(self).buffer@ == old(self).buffer@.remove(
                    old(self).cursor_glyph_idx - 1,
                )
                &&& final(self).cursor_glyph_idx == old(self).cursor_glyph_idx - 1
                &&& (*final(self) == (TextInput {
                    buffer: final(self).buffer,
                    cursor_glyph_idx: final(self).cursor_glyph_idx,
                    text_buf: Option::None,
                    clipped_text: Option::None,
                    clip_txt_buf: Option::None,
                    ..*old(self)
                }))
            },
            old(self).cursor_glyph_idx == 0 ==> *final(self) == *old(self),
    {
        if self.buffer.len() == 0 {
            return false;
        }
        if self.cursor_glyph_idx > 0 {
            let idx = self.cursor_glyph_idx - 1;
            self.buffer.remove(idx);
            self.cursor_glyph_idx = idx;
            self.text_buf = None;
            self.clipped_text = None;
            self.clip_txt_buf = None;
            true
        } else {
            false
        }
    }

    /// Places the cursor on the given character boundary.
    pub fn set_cursor_glyph_idx(&mut self, new_cursor_x: usize)
        requires
            old(self).wf(),
            new_cursor_x <= old(self).buffer@.len(),
        ensures
            final(self).wf(),
            final(self).cursor_glyph_idx == new_cursor_x,
            (*final(self) == (TextInput { cursor_glyph_idx: new_cursor_x, ..*old(self) })),
    {
        self.cursor_glyph_idx = new_cursor_x;
    }

    /// Replaces the buffer with text that changed outside the field (the
    /// shared cell was written by someone else). The cursor keeps its
    /// position when it still fits and is clamped to the new end otherwise;
    /// the shaped layouts are left stale.
    pub fn set_buffer(&mut self, new_text: Vec<char>)
        requires
            old(self).wf(),
        ensures
            final(self).wf(),
            final(self).buffer@ == new_text@,
            final(self).cursor_glyph_idx == if old(self).cursor_glyph_idx <= new_text@.len() {
                old(self).cursor_glyph_idx as int
            } else {
                new_text@.len() as int
            },
            (*final(self) == (TextInput {
                buffer: final(self).buffer,
                cursor_glyph_idx: final(self).cursor_glyph_idx,
                text_buf: Option::None,
                clipped_text: Option::None,
                clip_txt_buf: Option::None,
                ..*old(self)
            })),
    {
        let len = new_text.len();
        self.buffer = new_text;
        if self.cursor_glyph_idx > len {
            self.cursor_glyph_idx = len;
        }
        self.text_buf = None;
        self.clipped_text = None;
        self.clip_txt_buf = None;
    }

    /// Dispatches one key press: printable characters are inserted,
    /// Backspace deletes before the cursor, Home/End/ArrowLeft/ArrowRight
    /// move the cursor, and anything else is left unhandled.
    pub fn handle_key_down(&mut self, key: Key) -> (handled: bool)
        requires
            old(self).wf(),
        ensures
            final(self).wf(),
            final(self).buffer@ == key_buffer(
                old(self).buffer@,
                old(self).cursor_glyph_idx as int,
                key,
            ),
            final(self).cursor_glyph_idx as int == key_cursor(
                old(self).buffer@,
                old(self).cursor_glyph_idx as int,
                key,
            ),
            handled == key_handled(old(self).buffer@, old(self).cursor_glyph_idx as int, key),
            key_edits(old(self).cursor_glyph_idx as int, key) ==> final(self).text_buf is None
                && final(self).clipped_text is None && final(self).clip_txt_buf is None,
            (*final(self) == (TextInput {
                buffer: final(self).buffer,
                cursor_glyph_idx: final(self).cursor_glyph_idx,
                text_buf: final(self).text_buf,
                clipped_text: final(self).clipped_text,
                clip_txt_buf: final(self).clip_txt_buf,
                ..*old(self)
            })),
            !key_edits(old(self).cursor_glyph_idx as int, key) ==> final(self).text_buf == old(self).text_buf
                && final(self).clipped_text == old(self).clipped_text
                && final(self).clip_txt_buf == old(self).clip_txt_buf,
    {
        match key {
            Key::Character(ch) => self.insert_character(ch),
            Key::Backspace => self.delete_before_cursor(),
            Key::End => self.move_cursor(Movement::Line, Direction::Right),
            Key::Home => self.move_cursor(Movement::Line, Direction::Left),
            Key::ArrowLeft => self.move_cursor(Movement::Glyph, Direction::Left),
            Key::ArrowRight => self.move_cursor(Movement::Glyph, Direction::Right),
            Key::Unidentified => false,
        }
    }

    /// The field's authoritative reaction to one input event. An unfocused
    /// field handles nothing. A pointer press places the cursor at the end
    /// of the buffer (precise click-to-index mapping is a deliberate
    /// extension point). A key press goes through `handle_key_down`.
    pub fn event(&mut self, event: Event, is_focused: bool) -> (handled: bool)
        requires
            old(self).wf(),
        ensures
            final(self).wf(),
            !is_focused ==> *final(self) == *old(self) && !handled,
            is_focused && event is PointerDown ==> handled && (*final(self) == (TextInput {
                cursor_glyph_idx: old(self).buffer@.len() as usize,
                ..*old(self)
            })),
            is_focused ==> match event {
                Event::KeyDown(key) => {
                    &&& final(self).buffer@ == key_buffer(
                        old(self).buffer@,
                        old(self).cursor_glyph_idx as int,
                        key,
                    )
                    &&& final(self).cursor_glyph_idx as int == key_cursor(
                        old(self).buffer@,
                        old(self).cursor_glyph_idx as int,
                        key,
                    )
                    &&& handled == key_handled(
                        old(self).buffer@,
                        old(self).cursor_glyph_idx as int,
                        key,
                    )
                },
                Event::PointerDown => true,
            },
    {
        if !is_focused {
            return false;
        }
        match event {
            Event::PointerDown => {
                let end = self.buffer.len();
                self.set_cursor_glyph_idx(end);
                true
            },
            Event::KeyDown(key) => self.handle_key_down(key),
        }
    }

    /// Whether the shaped layout of the whole buffer is stale and must be
    /// rebuilt before the next clip or paint.
    pub fn needs_layout(&self) -> (stale: bool)
        ensures
            stale == (self.text_buf is None),
    {
        self.text_buf.is_none()
    }

    /// Whether `style` differs from the cached font attributes, so that the
    /// layout pass must re-shape the text.
    pub fn text_layout_changed(&self, style: &TextStyle) -> (changed: bool)
        ensures
            changed == !self.same_font(style),
    {
        let family_same: bool = match (&self.font_family, &style.font_family) {
            (Option::None, Option::None) => true,
            (Option::Some(x), Option::Some(y)) => *x == *y,
            _ => false,
        };
        let weight_same: bool = match (self.font_weight, style.font_weight) {
            (Option::None, Option::None) => true,
            (Option::Some(x), Option::Some(y)) => x == y,
            _ => false,
        };
        let style_same: bool = match (self.font_style, style.font_style) {
            (Option::None, Option::None) => true,
            (Option::Some(x), Option::Some(y)) => x == y,
            _ => false,
        };
        !(self.font_size == style.font_size && family_same && weight_same && style_same)
    }

    /// Takes over `style` as the cached attributes when anything in it
    /// (color included) differs. Returns whether it did, in which case the
    /// shaped layouts are stale and the host must re-shape.
    pub fn sync_style(&mut self, style: &TextStyle) -> (needs_relayout: bool)
        requires
            old(self).wf(),
        ensures
            final(self).wf(),
            needs_relayout == !old(self).same_style(style),
            !needs_relayout ==> *final(self) == *old(self),
            needs_relayout ==> {
                &&& final(self).same_style(style)
                &&& final(self).font_size == style.font_size
                &&& final(self).color == style.color
                &&& (*final(self) == (TextInput {
                    color: style.color,
                    font_size: style.font_size,
                    font_family: final(self).font_family,
                    font_weight: style.font_weight,
                    font_style: style.font_style,
                    text_buf: Option::None,
                    clipped_text: Option::None,
                    clip_txt_buf: Option::None,
                    ..*old(self)
                }))
            },
    {
        let family_same: bool = match (&self.font_family, &style.font_family) {
            (Option::None, Option::None) => true,
            (Option::Some(x), Option::Some(y)) => *x == *y,
            _ => false,
        };
        let weight_same: bool = match (self.font_weight, style.font_weight) {
            (Option::None, Option::None) => true,
            (Option::Some(x), Option::Some(y)) => x == y,
            _ => false,
        };
        let style_same: bool = match (self.font_style, style.font_style) {
            (Option::None, Option::None) => true,
            (Option::Some(x), Option::Some(y)) => x == y,
            _ => false,
        };
        let color_same: bool = match (self.color, style.color) {
            (Option::None, Option::None) => true,
            (Option::Some(x), Option::Some(y)) => x == y,
            _ => false,
        };
        if self.font_size == style.font_size && family_same && weight_same && style_same
            && color_same {
            return false;
        }
        self.color = style.color;
        self.font_size = style.font_size;
        self.font_family = match &style.font_family {
            Option::Some(f) => Option::Some(f.clone()),
            Option::None => Option::None,
        };
        self.font_weight = style.font_weight;
        self.font_style = style.font_style;
        self.text_buf = None;
        self.clipped_text = None;
        self.clip_txt_buf = None;
        true
    }

    /// Whether `positions` and `line_height` are an acceptable shaped layout
    /// for the current buffer: one boundary per character plus the right
    /// edge, starting at the origin, strictly increasing, all in range.
    pub open spec fn valid_positions(&self, positions: Seq<u64>, line_height: u64) -> bool {
        &&& positions.len() == self.buffer@.len() + 1
        &&& positions.len() >= 1 && positions[0] == 0
        &&& strictly_increasing(positions)
        &&& positions.last() <= PIXEL_LIMIT
        &&& line_height <= PIXEL_LIMIT
    }

    /// Installs the shaped layout the host produced for the current buffer
    /// and the cached attributes, and recomputes the field's preferred size.
    /// Rejects (and changes nothing on) boundary positions that do not fit
    /// the buffer. The clipped layout is dropped; the next clip
    /// recomputation rebuilds it.
    pub fn update_text_layout(&mut self, positions: Vec<u64>, line_height: u64) -> (applied: bool)
        requires
            old(self).wf(),
        ensures
            final(self).wf(),
            applied == old(self).valid_positions(positions@, line_height),
            !applied ==> *final(self) == *old(self),
            applied ==> {
                &&& final(self).text_buf matches Option::Some(l) && l.positions@ == positions@
                    && l.line_height == line_height
                &&& final(self).width == 10 * old(self).font_size as u64
                &&& final(self).height == old(self).font_size as u64
                &&& (*final(self) == (TextInput {
                    text_buf: final(self).text_buf,
                    clipped_text: Option::None,
                    clip_txt_buf: Option::None,
                    width: final(self).width,
                    height: final(self).height,
                    ..*old(self)
                }))
            },
    {
        let n = positions.len();
        if n < 1 || n - 1 != self.buffer.len() {
            return false;
        }
        if positions[0] != 0 {
            return false;
        }
        if positions[n - 1] > PIXEL_LIMIT || line_height > PIXEL_LIMIT {
            return false;
        }
        let mut i: usize = 1;
        while i < n
            invariant
                *self == *old(self),
                old(self).wf(),
                1 <= i <= n,
                n == positions@.len(),
                forall|a: int, b: int| 0 <= a < b < i ==> positions@[a] < positions@[b],
            decreases n - i,
        {
            if positions[i - 1] >= positions[i] {
                proof {
                    assert(!strictly_increasing(positions@));
                }
                return false;
            }
            proof {
                assert forall|a: int, b: int| 0 <= a < b < i + 1 implies positions@[a]
                    < positions@[b] by {
                    if b == i && a < i - 1 {
                        assert(positions@[a] < positions@[i - 1]);
                    }
                }
            }
            i = i + 1;
        }
        self.text_buf = Some(TextLayout { positions, line_height });
        self.clipped_text = None;
        self.clip_txt_buf = None;
        self.width = 10 * (self.font_size as u64);
        self.height = self.font_size as u64;
        true
    }

    /// The attributes the host shapes the text with, assembled from the
    /// cached style snapshot; the color falls back to black.
    pub fn get_text_attrs(&self) -> (attrs: TextAttrs)
        ensures
            attrs.color == (match self.color {
                Option::Some(c) => c,
                Option::None => Color::spec_black(),
            }),
            attrs.font_size == self.font_size,
            attrs.font_family == self.font_family,
            attrs.font_weight == self.font_weight,
            attrs.font_style == self.font_style,
    {
        let color = match self.color {
            Option::Some(c) => c,
            Option::None => Color::black(),
        };
        let font_family = match &self.font_family {
            Option::Some(f) => Option::Some(f.clone()),
            Option::None => Option::None,
        };
        TextAttrs {
            color,
            font_size: self.font_size,
            font_family,
            font_weight: self.font_weight,
            font_style: self.font_style,
        }
    }
}

/// The resolved attributes a shaping engine needs for one run of text.
pub struct TextAttrs {
    pub color: Color,
    pub font_size: u32,
    pub font_family: Option<String>,
    pub font_weight: Option<u16>,
    pub font_style: Option<FontStyle>,
}

/// Creates a text-input field over an initial buffer, with the cursor at
/// the start and no layout shaped yet.
pub fn text_input(buffer: Vec<char>) -> (field: TextInput)
    ensures
        field.wf(),
        field.buffer@ == buffer@,
        field.cursor_glyph_idx == 0,
        field.cursor_x == 0,
        field.text_buf is None,
        field.clipped_text is None,
        field.clip_txt_buf is None,
        field.clip_start_idx == 0,
        field.clip_start_x == 0,
        field.clip_offset_x == 0,
        field.color is None,
        field.font_size == DEFAULT_FONT_SIZE,
        field.width == 0,
        field.height == 0,
        field.font_family is None,
        field.font_weight is None,
        field.font_style is None,
        field.cursor_width == 1,
{
    TextInput {
        buffer,
        cursor_glyph_idx: 0,
        cursor_x: 0,
        text_buf: None,
        clipped_text: None,
        clip_start_idx: 0,
        clip_start_x: 0,
        clip_txt_buf: None,
        clip_offset_x: 0,
        color: None,
        font_size: DEFAULT_FONT_SIZE,
        width: 0,
        height: 0,
        font_family: None,
        font_weight: None,
        font_style: None,
        cursor_width: 1,
    }
}

} // verus!
