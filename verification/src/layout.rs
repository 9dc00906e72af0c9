//! Plain rectangle, position and size values for a character grid.
//!
//! All coordinates are cell coordinates: `x` grows to the right, `y`
//! grows downwards, and a rectangle covers the half-open cell ranges
//! `[x, x + width)` times `[y, y + height)`.

use vstd::prelude::*;

verus! {

/// A position on the character grid.
#[derive(Clone, Copy, Debug, PartialEq, Eq, Structural)]
pub struct Position {
    pub x: u16,
    pub y: u16,
}

/// A size in grid cells.
#[derive(Clone, Copy, Debug, PartialEq, Eq, Structural)]
pub struct Size {
    pub width: u16,
    pub height: u16,
}

/// A rectangle of grid cells, given by its top-left corner and its size.
#[derive(Clone, Copy, Debug, PartialEq, Eq, Structural)]
pub struct Rect {
    pub x: u16,
    pub y: u16,
    pub width: u16,
    pub height: u16,
}

impl Position {
    pub fn new(x: u16, y: u16) -> (r: Position)
        ensures
            r == (Position { x, y }),
    {
        Position { x, y }
    }
}

impl Size {
    pub fn new(width: u16, height: u16) -> (r: Size)
        ensures
            r == (Size { width, height }),
    {
        Size { width, height }
    }
}

impl Rect {
    /// The column just past the right edge.
    pub open spec fn right_spec(self) -> int {
        self.x + self.width
    }

    /// The row just past the bottom edge.
    pub open spec fn bottom_spec(self) -> int {
        self.y + self.height
    }

    /// The rectangle's edges stay within the coordinate range.
    pub open spec fn wf(self) -> bool {
        self.right_spec() <= u16::MAX && self.bottom_spec() <= u16::MAX
    }

    /// Whether the cell at `(x, y)` lies inside the rectangle.
    pub open spec fn contains_cell(self, x: int, y: int) -> bool {
        &&& self.x <= x < self.right_spec()
        &&& self.y <= y < self.bottom_spec()
    }

    /// Whether no cell lies in both rectangles.
    pub open spec fn disjoint(self, other: Rect) -> bool {
        forall|x: int, y: int| !(self.contains_cell(x, y) && other.contains_cell(x, y))
    }

    /// Whether every cell of `self` also lies in `other`.
    pub open spec fn contained_in(self, other: Rect) -> bool {
        forall|x: int, y: int| self.contains_cell(x, y) ==> other.contains_cell(x, y)
    }

    pub open spec fn is_empty_spec(self) -> bool {
        self.width == 0 || self.height == 0
    }

    pub fn new(x: u16, y: u16, width: u16, height: u16) -> (r: Rect)
        requires
            x + width <= u16::MAX,
            y + height <= u16::MAX,
        ensures
            r == (Rect { x, y, width, height }),
            r.wf(),
    {
        Rect { x, y, width, height }
    }

    /// Whether the rectangle covers no cell at all.
    pub fn is_empty(&self) -> (r: bool)
        ensures
            r == self.is_empty_spec(),
    {
        self.width == 0 || self.height == 0
    }

    /// Whether `pos` lies inside the rectangle.
    pub fn contains(&self, pos: Position) -> (r: bool)
        ensures
            r == self.contains_cell(pos.x as int, pos.y as int),
    {
        pos.x >= self.x && pos.x - self.x < self.width && pos.y >= self.y && pos.y - self.y
            < self.height
    }
}

/// Maps a pointer position on a scrollbar track to a content offset.
///
/// `pos` is the clicked row or column, `base` the start of the track and
/// `length` its extent. One cell at each end of the track is reserved for
/// an arrow glyph, so the usable span is `length - 2` and positions at or
/// before `base + 1` map to offset `0`. The remaining span is scaled
/// linearly onto `[0, max_offset]`; a degenerate track with no usable
/// span also maps to offset `0`.
pub open spec fn hit_to_offset_spec(pos: u16, base: u16, length: u16, max_offset: usize) -> int {
    let p = if pos > base + 1 { pos - base - 1 } else { 0 };
    let span = if length > 2 { length - 2 } else { 0 };
    if span == 0 {
        0
    } else {
        let scaled = if max_offset * p > usize::MAX { usize::MAX as int } else { max_offset * p };
        scaled / span
    }
}

/// For a fixed track, the offset a pointer position maps to never
/// decreases as the position moves towards the track's far end.
pub proof fn lemma_hit_to_offset_monotonic(
    pos1: u16,
    pos2: u16,
    base: u16,
    length: u16,
    max_offset: usize,
)
    requires
        pos1 <= pos2,
    ensures
        hit_to_offset_spec(pos1, base, length, max_offset) <= hit_to_offset_spec(
            pos2,
            base,
            length,
            max_offset,
        ),
{
    let p1 = if pos1 > base + 1 { pos1 - base - 1 } else { 0 };
    let p2 = if pos2 > base + 1 { pos2 - base - 1 } else { 0 };
    let span = if length > 2 { length - 2 } else { 0 };
    if span > 0 {
        assert(max_offset * p1 <= max_offset * p2) by (nonlinear_arith)
            requires
                0 <= p1 <= p2,
                max_offset >= 0,
        ;
        let s1 = if max_offset * p1 > usize::MAX { usize::MAX as int } else { max_offset * p1 };
        let s2 = if max_offset * p2 > usize::MAX { usize::MAX as int } else { max_offset * p2 };
        vstd::arithmetic::div_mod::lemma_div_is_ordered(s1, s2, span as int);
    }
}

/// A pointer position at or before the leading arrow glyph maps to
/// offset `0`.
pub proof fn lemma_hit_to_offset_at_start(pos: u16, base: u16, length: u16, max_offset: usize)
    requires
        pos <= base + 1,
    ensures
        hit_to_offset_spec(pos, base, length, max_offset) == 0,
{
    let span = if length > 2 { length - 2 } else { 0 };
    if span > 0 {
        assert(max_offset * 0 == 0) by (nonlinear_arith);
        assert(0int / (span as int) == 0) by (nonlinear_arith)
            requires
                span > 0,
        ;
    }
}

/// Maps a pointer position on a scrollbar track to a content offset;
/// see [`hit_to_offset_spec`] for the exact shape. The product
/// saturates at the machine limit rather than wrapping.
pub fn hit_to_offset(pos: u16, base: u16, length: u16, max_offset: usize) -> (r: usize)
    ensures
        r == hit_to_offset_spec(pos, base, length, max_offset),
{
    let p = pos.saturating_sub(base).saturating_sub(1) as usize;
    let span = length.saturating_sub(2) as usize;
    if span == 0 {
        0
    } else {
        let scaled = match max_offset.checked_mul(p) {
            Some(v) => v,
            None => usize::MAX,
        };
        scaled / span
    }
}

} // verus!
