//! The field's global guarantees, stated and proved on their own.
//!
//! Two of them relate several transition functions and so cannot live in a
//! single contract: the insert/delete round trip, and the stability of a
//! repeated clip recomputation. A third spells out the cursor-bounds
//! invariant that every transition function carries through `wf`.

use vstd::prelude::*;

use crate::clip::clip_model;
use crate::clip::clipped_to;
use crate::clip::unclipped_to;
use crate::input::TextInput;
use crate::layout::PIXEL_LIMIT;

verus! {

/// Cursor bounds: in every well-formed field state the cursor lies on a
/// character boundary of the buffer, `0 <= cursor <= length`. Every
/// transition function requires `wf` and ensures it back, so this holds
/// after every sequence of insert, delete and move operations.
pub proof fn lemma_cursor_in_bounds(field: TextInput)
    requires
        field.wf(),
    ensures
        0 <= field.cursor_glyph_idx <= field.buffer@.len(),
{
}

/// Insert/delete inverse: inserting a character at the cursor (which
/// advances the cursor past it, as `insert_character` ensures) and then
/// deleting before the cursor (as `delete_before_cursor` ensures, its
/// guard met because the advanced cursor is positive) restores both the
/// buffer and the cursor.
pub proof fn lemma_insert_then_delete(
    pre: TextInput,
    mid: TextInput,
    post: TextInput,
    ch: char,
)
    requires
        pre.wf(),
        mid.buffer@ == pre.buffer@.insert(pre.cursor_glyph_idx as int, ch),
        mid.cursor_glyph_idx == pre.cursor_glyph_idx + 1,
        post.buffer@ == mid.buffer@.remove(mid.cursor_glyph_idx - 1),
        post.cursor_glyph_idx == mid.cursor_glyph_idx - 1,
    ensures
        post.buffer@ == pre.buffer@,
        post.cursor_glyph_idx == pre.cursor_glyph_idx,
{
    let c = pre.cursor_glyph_idx as int;
    assert(pre.buffer@.insert(c, ch).remove(c) =~= pre.buffer@);
}

/// A clip recomputation leaves the window where the cursor is already
/// inside it: running the model a second time from the state the first run
/// produced changes nothing.
pub proof fn lemma_clip_model_idempotent(
    ps: Seq<u64>,
    cursor: int,
    start_x0: int,
    offset0: int,
    w: int,
)
    requires
        0 <= cursor < ps.len(),
        w >= 0,
    ensures
        ({
            let m1 = clip_model(ps, cursor, start_x0, offset0, w);
            clip_model(ps, cursor, m1.start_x, m1.offset_x, w) == m1
        }),
{
    let m1 = clip_model(ps, cursor, start_x0, offset0, w);
    let cx = ps[cursor] as int;
    assert(m1.start_x <= cx <= m1.start_x + w);
    let m2 = clip_model(ps, cursor, m1.start_x, m1.offset_x, w);
    assert(m2.start_x == m1.start_x);
    assert(m2 == m1);
}

/// Clip idempotence: two clip recomputations in a row with no intervening
/// state change produce identical clip state — the same visible window,
/// the same clipped substring and layout, and the same `clip_offset_x`;
/// there is no oscillation. `pre -> mid` and `mid -> post` are each one run
/// of `recompute_clip`, as its contract describes them.
pub proof fn lemma_recompute_clip_idempotent(
    pre: TextInput,
    mid: TextInput,
    post: TextInput,
    node_width: u64,
)
    requires
        pre.wf(),
        mid.wf(),
        pre.text_buf is Some,
        node_width <= PIXEL_LIMIT,
        pre.text_buf->0.width() > node_width ==> clipped_to(pre, mid, node_width),
        pre.text_buf->0.width() <= node_width ==> unclipped_to(pre, mid),
        mid.text_buf->0.width() > node_width ==> clipped_to(mid, post, node_width),
        mid.text_buf->0.width() <= node_width ==> unclipped_to(mid, post),
    ensures
        post.clip_start_x == mid.clip_start_x,
        post.clip_start_idx == mid.clip_start_idx,
        post.clip_offset_x == mid.clip_offset_x,
        post.cursor_x == mid.cursor_x,
        post.visible_window() == mid.visible_window(),
        (match (post.clipped_text, mid.clipped_text) {
            (Option::Some(a), Option::Some(b)) => a@ == b@,
            (Option::None, Option::None) => true,
            _ => false,
        }),
        (match (post.clip_txt_buf, mid.clip_txt_buf) {
            (Option::Some(a), Option::Some(b)) => a.positions@ == b.positions@ && a.line_height
                == b.line_height,
            (Option::None, Option::None) => true,
            _ => false,
        }),
{
    assert(mid.text_buf == pre.text_buf);
    assert(mid.buffer@ == pre.buffer@);
    assert(mid.cursor_glyph_idx == pre.cursor_glyph_idx);
    let ps = pre.text_buf->0.positions@;
    let cursor = pre.cursor_glyph_idx as int;
    if pre.text_buf->0.width() > node_width {
        let m1 = clip_model(
            ps,
            cursor,
            pre.clip_start_x as int,
            pre.clip_offset_x as int,
            node_width as int,
        );
        lemma_clip_model_idempotent(
            ps,
            cursor,
            pre.clip_start_x as int,
            pre.clip_offset_x as int,
            node_width as int,
        );
        let m2 = clip_model(
            ps,
            cursor,
            mid.clip_start_x as int,
            mid.clip_offset_x as int,
            node_width as int,
        );
        assert(m2 == m1);
        let t1 = mid.clipped_text->0;
        let t2 = post.clipped_text->0;
        assert(t2@ == t1@);
        let cl1 = mid.clip_txt_buf->0;
        let cl2 = post.clip_txt_buf->0;
        assert(cl2.positions@ =~= cl1.positions@);
    } else {
    }
}

} // verus!
