//! A verified single-line editable text field.
//!
//! The field owns an editable character buffer, tracks a cursor position in
//! character units, and maintains the horizontally clipped window of text
//! that keeps the cursor visible when the shaped text is wider than the box
//! the field was allocated. Text shaping itself is the host's business: the
//! host hands the field the shaped glyph-boundary positions (in whole pixel
//! units) and receives back a paint plan made of plain values.

mod clip;
mod input;
mod laws;
mod layout;

pub use laws::lemma_clip_model_idempotent;
pub use laws::lemma_cursor_in_bounds;
pub use laws::lemma_insert_then_delete;
pub use laws::lemma_recompute_clip_idempotent;

pub use clip::ClipModel;
pub use clip::PaintPlan;
pub use clip::PaintText;
pub use clip::Rect;
pub use clip::clip_model;
pub use clip::clip_start_after;
pub use clip::clipped_to;
pub use clip::unclipped_to;
pub use input::Color;
pub use input::Direction;
pub use input::Event;
pub use input::FontStyle;
pub use input::Key;
pub use input::Movement;
pub use input::TextAttrs;
pub use input::TextInput;
pub use input::TextStyle;
pub use input::text_input;
pub use input::DEFAULT_FONT_SIZE;
pub use layout::TextLayout;
pub use layout::hit_index;
pub use layout::strictly_increasing;
pub use layout::PIXEL_LIMIT;
