//! An integer-pixel model of a shaped single-line text layout.
//!
//! A shaping engine turns a string of `n` characters into a row of glyphs.
//! All this crate needs from that row are the `n + 1` boundary coordinates:
//! `positions[i]` is the horizontal pixel offset of the boundary in front of
//! character `i`, and `positions[n]` is the rendered width of the whole row.
//! Hit-testing in either direction (index to coordinate, coordinate to
//! index) is then plain arithmetic over that vector.

use vstd::prelude::*;

verus! {

/// Upper bound on every pixel coordinate the model handles, so that sums of
/// two coordinates never overflow a `u64`.
pub const PIXEL_LIMIT: u64 = 0x1_0000_0000;

/// A sequence is strictly increasing.
pub open spec fn strictly_increasing(ps: Seq<u64>) -> bool {
    forall|i: int, j: int| 0 <= i < j < ps.len() ==> ps[i] < ps[j]
}

/// The character index hit by the coordinate `x`: the largest boundary whose
/// position does not exceed `x` (the boundary at or just before `x`).
pub open spec fn hit_index(ps: Seq<u64>, x: int) -> int
    decreases ps.len(),
{
    if ps.len() <= 1 {
        0
    } else if ps.last() <= x {
        ps.len() - 1
    } else {
        hit_index(ps.drop_last(), x)
    }
}

/// The shaped layout of one line of text, reduced to its boundary positions.
pub struct TextLayout {
    /// `positions[i]` is the pixel x of the boundary in front of character
    /// `i`; the last entry is the rendered width of the line.
    pub positions: Vec<u64>,
    /// Rendered height of the line in pixels.
    pub line_height: u64,
}

impl TextLayout {
    /// A layout describes `positions.len() - 1` characters, starts at the
    /// origin, gives every character a positive width, and keeps every
    /// coordinate within `PIXEL_LIMIT`.
    pub open spec fn wf(&self) -> bool {
        &&& self.positions@.len() >= 1
        &&& self.positions@[0] == 0
        &&& strictly_increasing(self.positions@)
        &&& self.positions@.last() <= PIXEL_LIMIT
        &&& self.line_height <= PIXEL_LIMIT
    }

    /// How many characters the layout describes.
    pub open spec fn char_count(&self) -> int {
        self.positions@.len() - 1
    }

    /// The rendered width of the line.
    pub open spec fn width(&self) -> u64 {
        self.positions@.last()
    }

    /// The rendered width of the line.
    pub fn rendered_width(&self) -> (w: u64)
        requires
            self.wf(),
        ensures
            w == self.width(),
    {
        self.positions[self.positions.len() - 1]
    }

    /// Index-to-coordinate hit-testing: the pixel x of the boundary in front
    /// of character `idx` (of the line's right edge for `idx == char_count`).
    pub fn hit_position(&self, idx: usize) -> (x: u64)
        requires
            self.wf(),
            idx < self.positions@.len(),
        ensures
            x == self.positions@[idx as int],
    {
        self.positions[idx]
    }

    /// Coordinate-to-index hit-testing: the boundary at or just before `x`.
    pub fn hit_point(&self, x: u64) -> (idx: usize)
        requires
            self.wf(),
        ensures
            idx == hit_index(self.positions@, x as int),
            idx < self.positions@.len(),
    {
        let ghost ps = self.positions@;
        let n = self.positions.len();
        let mut i: usize = 0;
        while i + 1 < n && self.positions[i + 1] <= x
            invariant
                self.wf(),
                ps == self.positions@,
                n == ps.len(),
                i < n,
                ps[i as int] <= x as int,
            decreases n - i,
        {
            i = i + 1;
        }
        proof {
            lemma_hit_index_ge(ps, x as int, i as int);
            if i + 1 < ps.len() {
                lemma_hit_index_lt(ps, x as int, i + 1);
            } else {
                lemma_hit_index_bounds(ps, x as int);
            }
        }
        i
    }

    /// The layout of the characters `[start, end)` alone, rebased so that its
    /// first boundary sits at the origin. Models re-shaping the clipped
    /// substring, under the model's premise that a character's advance does
    /// not depend on its neighbours.
    pub fn sub_layout(&self, start: usize, end: usize) -> (sub: TextLayout)
        requires
            self.wf(),
            start <= end,
            end < self.positions@.len(),
        ensures
            sub.wf(),
            sub.positions@.len() == end - start + 1,
            forall|i: int|
                0 <= i <= end - start ==> sub.positions@[i] == self.positions@[start + i]
                    - self.positions@[start as int],
            sub.line_height == self.line_height,
            sub.width() == self.positions@[end as int] - self.positions@[start as int],
    {
        let n = self.positions.len();
        let base = self.positions[start];
        let mut out: Vec<u64> = Vec::new();
        let mut i: usize = start;
        while i <= end
            invariant
                self.wf(),
                n == self.positions@.len(),
                start <= i <= end + 1,
                end < n,
                base == self.positions@[start as int],
                out@.len() == i - start,
                forall|k: int|
                    0 <= k < i - start ==> out@[k] == self.positions@[start + k]
                        - self.positions@[start as int],
            decreases end + 1 - i,
        {
            let p = self.positions[i];
            out.push(p - base);
            i = i + 1;
        }
        TextLayout { positions: out, line_height: self.line_height }
    }
}

/// The hit index is a valid boundary index, its position does not exceed
/// `x`, and the next boundary (when there is one) lies beyond `x`.
pub proof fn lemma_hit_index_bounds(ps: Seq<u64>, x: int)
    requires
        ps.len() >= 1,
        ps[0] == 0,
        strictly_increasing(ps),
        x >= 0,
    ensures
        0 <= hit_index(ps, x) < ps.len(),
        ps[hit_index(ps, x)] <= x,
        hit_index(ps, x) < ps.len() - 1 ==> ps[hit_index(ps, x) + 1] > x,
    decreases ps.len(),
{
    if ps.len() <= 1 {
    } else if ps.last() <= x {
    } else {
        let sub = ps.drop_last();
        assert(strictly_increasing(sub)) by {
            assert forall|i: int, j: int| 0 <= i < j < sub.len() implies sub[i] < sub[j] by {
                assert(ps[i] < ps[j]);
            }
        }
        lemma_hit_index_bounds(sub, x);
        let h = hit_index(sub, x);
        assert(sub[h] == ps[h]);
        if h < sub.len() - 1 {
            assert(sub[h + 1] == ps[h + 1]);
        }
    }
}

/// A boundary whose position is at or before `x` cannot lie beyond the hit
/// index.
pub proof fn lemma_hit_index_ge(ps: Seq<u64>, x: int, i: int)
    requires
        ps.len() >= 1,
        ps[0] == 0,
        strictly_increasing(ps),
        x >= 0,
        0 <= i < ps.len(),
        ps[i] <= x,
    ensures
        hit_index(ps, x) >= i,
{
    lemma_hit_index_bounds(ps, x);
    let h = hit_index(ps, x);
    if h < i {
        assert(h < ps.len() - 1);
        assert(ps[h + 1] > x);
        if h + 1 < i {
            assert(ps[h + 1] < ps[i]);
        }
        assert(ps[h + 1] <= ps[i]);
    }
}

/// A boundary whose position lies beyond `x` must lie beyond the hit index.
pub proof fn lemma_hit_index_lt(ps: Seq<u64>, x: int, i: int)
    requires
        ps.len() >= 1,
        ps[0] == 0,
        strictly_increasing(ps),
        x >= 0,
        0 <= i < ps.len(),
        ps[i] > x,
    ensures
        hit_index(ps, x) < i,
{
    lemma_hit_index_bounds(ps, x);
    let h = hit_index(ps, x);
    if h >= i {
        if h > i {
            assert(ps[i] < ps[h]);
        }
        assert(ps[i] <= ps[h]);
    }
}

} // verus!
