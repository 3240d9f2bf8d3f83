//! Horizontal clipping: the visible window of an overflowing line.
//!
//! When the shaped buffer is wider than the box the field was allocated, the
//! field shows only the window of text around the cursor. The window is
//! recomputed on demand during the paint pass: hit-test the cursor, scroll
//! the window's pixel origin just far enough to contain it, convert the
//! window's pixel range back to character indices, and re-derive the layout
//! of that substring. `ClipModel` and `clip_model` state the whole
//! computation at the specification level; the executable code is proved to
//! match it.

use vstd::prelude::*;

use crate::input::TextInput;
use crate::layout::PIXEL_LIMIT;
use crate::layout::hit_index;
use crate::layout::lemma_hit_index_bounds;
use crate::layout::lemma_hit_index_ge;

verus! {

/// Which way the visible window moved to catch up with the cursor.
enum ClipDirection {
    Unmoved,
    Forward,
    Backward,
}

/// The clip state a recomputation produces, at the specification level.
pub struct ClipModel {
    /// Pixel x into the full layout where the visible window starts.
    pub start_x: int,
    /// First character index of the visible window.
    pub start_idx: int,
    /// Character index just past the visible window.
    pub end_idx: int,
    /// Cursor x relative to the visible window's origin.
    pub cursor_x: int,
    /// Leftward shift applied to the rendered window.
    pub offset_x: int,
}

/// Where the visible window's pixel origin lands: unchanged when the cursor
/// at `cx` is already inside `[start_x0, start_x0 + w]`, at the cursor when
/// it lies to the left, and `w` short of the cursor when it lies to the
/// right.
pub open spec fn clip_start_after(cx: int, start_x0: int, w: int) -> int {
    if cx < start_x0 {
        cx
    } else if cx > start_x0 + w {
        cx - w
    } else {
        start_x0
    }
}

/// One clip recomputation over the boundary positions `ps`, with the cursor
/// on boundary `cursor`, the window previously at `start_x0` with shift
/// `offset0`, and a box `w` pixels wide.
pub open spec fn clip_model(ps: Seq<u64>, cursor: int, start_x0: int, offset0: int, w: int) -> ClipModel {
    let cx = ps[cursor] as int;
    let sx = clip_start_after(cx, start_x0, w);
    let s = hit_index(ps, sx);
    let e = hit_index(ps, sx + w);
    ClipModel {
        start_x: sx,
        start_idx: s,
        end_idx: e,
        cursor_x: cx - sx,
        offset_x: if cx > start_x0 + w {
            (ps[e] - ps[s]) - w
        } else if cx < start_x0 {
            0
        } else {
            offset0
        },
    }
}

/// `post` is `pre` after one clip recomputation against a box `node_width`
/// pixels wide: the clip fields follow `clip_model`, the clipped substring
/// and its layout describe exactly the window `[start_idx, end_idx)`, the
/// cursor lies inside the window, and nothing else changed.
pub open spec fn clipped_to(pre: TextInput, post: TextInput, node_width: u64) -> bool {
    let ps = pre.text_buf->0.positions@;
    let m = clip_model(
        ps,
        pre.cursor_glyph_idx as int,
        pre.clip_start_x as int,
        pre.clip_offset_x as int,
        node_width as int,
    );
    &&& post.clip_start_x == m.start_x
    &&& post.clip_start_idx == m.start_idx
    &&& post.clip_offset_x == m.offset_x
    &&& post.cursor_x == m.cursor_x
    &&& post.clipped_text matches Option::Some(t) && t@ == pre.buffer@.subrange(
        m.start_idx,
        m.end_idx,
    )
    &&& post.clip_txt_buf matches Option::Some(cl) && cl.positions@.len() == m.end_idx
        - m.start_idx + 1 && (forall|i: int|
        0 <= i <= m.end_idx - m.start_idx ==> cl.positions@[i] == ps[m.start_idx + i]
            - ps[m.start_idx]) && cl.line_height == pre.text_buf->0.line_height
    &&& m.start_idx <= pre.cursor_glyph_idx as int <= m.end_idx
    &&& post == (TextInput {
        cursor_x: post.cursor_x,
        clipped_text: post.clipped_text,
        clip_start_idx: post.clip_start_idx,
        clip_start_x: post.clip_start_x,
        clip_txt_buf: post.clip_txt_buf,
        clip_offset_x: post.clip_offset_x,
        ..pre
    })
}

/// `post` is `pre` after a clip recomputation found the whole line to fit:
/// no window, the clip origin back at zero, and the cursor hit-tested
/// against the full layout. The shift is left as it was, matching the
/// clipped path, which also leaves it alone when the window did not move.
pub open spec fn unclipped_to(pre: TextInput, post: TextInput) -> bool {
    &&& post.clip_txt_buf is None
    &&& post.clipped_text is None
    &&& post.clip_start_idx == 0
    &&& post.clip_start_x == 0
    &&& post.cursor_x == pre.text_buf->0.positions@[pre.cursor_glyph_idx as int]
    &&& post == (TextInput {
        cursor_x: post.cursor_x,
        clipped_text: Option::None,
        clip_start_idx: 0,
        clip_start_x: 0,
        clip_txt_buf: Option::None,
        ..pre
    })
}

/// What one frame paints: the full layout, or the clipped one shifted left
/// by `offset_x` pixels.
#[derive(Clone, Copy, Debug)]
pub enum PaintText {
    Full,
    Clipped { offset_x: u64 },
}

/// An axis-aligned rectangle in pixels, corners at `(x0, y0)` and
/// `(x1, y1)`.
#[derive(Clone, Copy, Debug, PartialEq, Eq, Structural)]
pub struct Rect {
    pub x0: u64,
    pub y0: u64,
    pub x1: u64,
    pub y1: u64,
}

/// The paint pass's output: which text layout to draw, and the cursor bar
/// when the field holds focus.
pub struct PaintPlan {
    pub text: Option<PaintText>,
    pub cursor: Option<Rect>,
}

impl TextInput {
    /// Recomputes the visible window around the cursor, against a box
    /// `node_width` pixels wide. Runs only when the shaped line overflows
    /// the box; `recompute_clip` is the dispatching entry.
    pub fn clip_text(&mut self, node_width: u64)
        requires
            old(self).wf(),
            old(self).text_buf is Some,
            node_width <= PIXEL_LIMIT,
        ensures
            final(self).wf(),
            clipped_to(*old(self), *final(self), node_width),
    {
        let ghost pre = *self;
        let ghost ps = self.text_buf->0.positions@;
        let ghost m = clip_model(
            ps,
            pre.cursor_glyph_idx as int,
            pre.clip_start_x as int,
            pre.clip_offset_x as int,
            node_width as int,
        );

        let cursor_idx = self.cursor_glyph_idx;
        let virt = self.text_buf.as_ref().unwrap();
        let cx = virt.hit_position(cursor_idx);
        proof {
            assert(cursor_idx as int == ps.len() - 1 || ps[cursor_idx as int] < ps[ps.len() - 1]);
            assert(cx <= PIXEL_LIMIT);
        }
        let mut clip_start_x = self.clip_start_x;
        let mut clip_dir = ClipDirection::Unmoved;
        if cx < clip_start_x {
            clip_start_x = cx;
            clip_dir = ClipDirection::Backward;
        } else if cx > clip_start_x + node_width {
            clip_dir = ClipDirection::Forward;
            clip_start_x = cx - node_width;
        }
        proof {
            assert(clip_start_x as int == clip_start_after(
                cx as int,
                pre.clip_start_x as int,
                node_width as int,
            ));
            assert(clip_start_x <= cx);
            assert(cx as int <= clip_start_x as int + node_width as int);
        }
        let clip_start = virt.hit_point(clip_start_x);
        let clip_end = virt.hit_point(clip_start_x + node_width);
        proof {
            lemma_hit_index_bounds(ps, clip_start_x as int);
            lemma_hit_index_bounds(ps, clip_start_x as int + node_width as int);
            lemma_hit_index_ge(
                ps,
                clip_start_x as int + node_width as int,
                cursor_idx as int,
            );
            if clip_start as int > cursor_idx as int {
                assert(ps[cursor_idx as int] < ps[clip_start as int]);
                assert(false);
            }
            lemma_hit_index_ge(
                ps,
                clip_start_x as int + node_width as int,
                clip_start as int,
            );
        }
        let sub = virt.sub_layout(clip_start, clip_end);
        let sub_w = sub.rendered_width();
        proof {
            assert(clip_end as int == cursor_idx as int || ps[cursor_idx as int] < ps[clip_end as int]);
            assert(ps[clip_end as int] >= cx);
        }

        let mut new_text: Vec<char> = Vec::new();
        let mut i: usize = clip_start;
        while i < clip_end
            invariant
                *self == pre,
                pre.wf(),
                clip_start <= i <= clip_end,
                clip_end <= self.buffer@.len(),
                new_text@ == self.buffer@.subrange(clip_start as int, i as int),
            decreases clip_end - i,
        {
            let c = self.buffer[i];
            new_text.push(c);
            proof {
                assert(new_text@ =~= self.buffer@.subrange(clip_start as int, i + 1));
            }
            i = i + 1;
        }

        self.cursor_x = cx - clip_start_x;
        self.clip_start_idx = clip_start;
        self.clip_start_x = clip_start_x;
        self.clipped_text = Some(new_text);
        self.clip_txt_buf = Some(sub);
        match clip_dir {
            ClipDirection::Unmoved => {},
            ClipDirection::Forward => {
                self.clip_offset_x = sub_w - node_width;
            },
            ClipDirection::Backward => {
                self.clip_offset_x = 0;
            },
        }
    }

    /// The clip recomputation run each paint: when the shaped line is wider
    /// than the box, recompute the visible window around the cursor;
    /// otherwise drop any window and hit-test the cursor against the full
    /// layout. Afterwards, whenever a window is present, the cursor lies
    /// inside it.
    pub fn recompute_clip(&mut self, node_width: u64)
        requires
            old(self).wf(),
            old(self).text_buf is Some,
            node_width <= PIXEL_LIMIT,
        ensures
            final(self).wf(),
            old(self).text_buf->0.width() > node_width ==> clipped_to(
                *old(self),
                *final(self),
                node_width,
            ),
            old(self).text_buf->0.width() <= node_width ==> unclipped_to(*old(self), *final(self)),
            final(self).clip_txt_buf is Some <==> final(self).visible_window() is Some,
            final(self).visible_window() matches Option::Some(w)
                ==> w.0 <= final(self).cursor_glyph_idx as int <= w.1,
    {
        let buf_width = self.text_buf.as_ref().unwrap().rendered_width();
        if buf_width > node_width {
            self.clip_text(node_width);
        } else {
            let cursor_idx = self.cursor_glyph_idx;
            let virt = self.text_buf.as_ref().unwrap();
            let cx = virt.hit_position(cursor_idx);
            proof {
                let ps = self.text_buf->0.positions@;
                assert(cursor_idx as int == ps.len() - 1 || ps[cursor_idx as int] < ps[ps.len()
                    - 1]);
                assert(cx <= PIXEL_LIMIT);
            }
            self.clip_txt_buf = None;
            self.clipped_text = None;
            self.clip_start_idx = 0;
            self.clip_start_x = 0;
            self.cursor_x = cx;
        }
    }

    /// The rectangle of the cursor bar, in the host's coordinates: the
    /// cursor's x inside the visible text, offset by the box's location, one
    /// `cursor_width` wide and one text line tall.
    pub fn get_cursor_rect(&self, node_x: u64, node_y: u64) -> (r: Rect)
        requires
            self.wf(),
            self.text_buf is Some,
            node_x <= PIXEL_LIMIT,
            node_y <= PIXEL_LIMIT,
        ensures
            r.x0 == self.cursor_x + node_x,
            r.y0 == node_y,
            r.x1 == self.cursor_x + node_x + self.cursor_width,
            r.y1 == node_y + self.text_buf->0.line_height,
    {
        let text_height = self.text_buf.as_ref().unwrap().line_height;
        Rect {
            x0: self.cursor_x + node_x,
            y0: node_y,
            x1: self.cursor_x + node_x + self.cursor_width,
            y1: node_y + text_height,
        }
    }

    /// One paint pass against the box at `(node_x, node_y)`, `node_width`
    /// pixels wide. An unfocused, empty field paints nothing and changes
    /// nothing. Otherwise the visible window is recomputed, the plan names
    /// the layout to draw (the clipped one shifted left by the clip offset,
    /// when clipping is active), and a focused field gets a cursor bar.
    pub fn paint(&mut self, node_x: u64, node_y: u64, node_width: u64, is_focused: bool) -> (plan:
        PaintPlan)
        requires
            old(self).wf(),
            old(self).text_buf is Some,
            node_x <= PIXEL_LIMIT,
            node_y <= PIXEL_LIMIT,
            node_width <= PIXEL_LIMIT,
        ensures
            final(self).wf(),
            (!is_focused && old(self).buffer@.len() == 0) ==> *final(self) == *old(self)
                && plan.text is None && plan.cursor is None,
            (is_focused || old(self).buffer@.len() > 0) ==> {
                &&& old(self).text_buf->0.width() > node_width ==> clipped_to(
                    *old(self),
                    *final(self),
                    node_width,
                ) && plan.text == Option::Some(
                    (PaintText::Clipped { offset_x: final(self).clip_offset_x }),
                )
                &&& old(self).text_buf->0.width() <= node_width ==> unclipped_to(
                    *old(self),
                    *final(self),
                ) && plan.text == Option::Some(PaintText::Full)
                &&& is_focused ==> (plan.cursor matches Option::Some(r)
                    && r.x0 == final(self).cursor_x + node_x
                    && r.y0 == node_y
                    && r.x1 == final(self).cursor_x + node_x + final(self).cursor_width
                    && r.y1 == node_y + final(self).text_buf->0.line_height)
                &&& !is_focused ==> plan.cursor is None
            },
    {
        if !is_focused && self.buffer.len() == 0 {
            return PaintPlan { text: None, cursor: None };
        }
        self.recompute_clip(node_width);
        let text = if self.clip_txt_buf.is_some() {
            PaintText::Clipped { offset_x: self.clip_offset_x }
        } else {
            PaintText::Full
        };
        let cursor = if is_focused {
            Some(self.get_cursor_rect(node_x, node_y))
        } else {
            None
        };
        PaintPlan { text: Some(text), cursor }
    }
}

} // verus!
