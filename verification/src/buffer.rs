//! A 2-D cell surface and the window copy used for scrolling.
//!
//! Widgets without native scrolling support are rendered in full into a
//! surface sized to their natural extent; a window of that surface is
//! then copied into the real destination. Styles are carried as opaque
//! tokens: the embedding maps tokens to whatever styling its render
//! target understands.

use vstd::prelude::*;

use crate::layout::Rect;

verus! {

/// One cell of a surface: a glyph and an opaque style token.
#[derive(Clone, Copy, Debug, PartialEq, Eq, Structural)]
pub struct Cell {
    pub symbol: char,
    pub style: u16,
}

/// A rectangular grid of cells, stored row-major.
///
/// The grid covers exactly the cells of `area`; cells are addressed by
/// their grid coordinates, not relative to the rectangle's corner.
#[derive(Clone, Debug, PartialEq, Eq)]
pub struct Surface {
    /// The rectangle this surface covers.
    pub area: Rect,
    pub cells: Vec<Cell>,
}

impl Surface {
    /// One cell for every coordinate of `area`, and edges in range.
    pub open spec fn wf(self) -> bool {
        &&& self.area.wf()
        &&& self.cells.len() == self.area.width * self.area.height
    }

    /// The cell at grid coordinates `(x, y)`.
    pub open spec fn cell_at(self, x: int, y: int) -> Cell {
        self.cells[(y - self.area.y) * self.area.width + (x - self.area.x)]
    }

    /// A new surface covering `area`, every cell set to `fill`.
    pub fn new(area: Rect, fill: Cell) -> (r: Surface)
        requires
            area.wf(),
        ensures
            r.wf(),
            r.area == area,
            forall|x: int, y: int|
                area.contains_cell(x, y) ==> r.cell_at(x, y) == fill,
    {
        proof {
            assert(area.width * area.height <= 0xffff * 0xffff) by (nonlinear_arith)
                requires
                    area.width <= 0xffff,
                    area.height <= 0xffff,
            ;
        }
        let n: usize = (area.width as usize) * (area.height as usize);
        let mut cells: Vec<Cell> = Vec::new();
        let mut i: usize = 0;
        while i < n
            invariant
                i <= n,
                cells.len() == i,
                forall|k: int| 0 <= k < i ==> cells[k] == fill,
            decreases n - i,
        {
            cells.push(fill);
            i = i + 1;
        }
        let r = Surface { area, cells };
        proof {
            assert forall|x: int, y: int| area.contains_cell(x, y) implies r.cell_at(x, y)
                == fill by {
                lemma_row_major_index_bound(
                    area.width as int,
                    area.height as int,
                    x - area.x,
                    y - area.y,
                );
            }
        }
        r
    }

    /// Read the cell at `(x, y)`.
    pub fn get(&self, x: u16, y: u16) -> (r: Cell)
        requires
            self.wf(),
            self.area.contains_cell(x as int, y as int),
        ensures
            r == self.cell_at(x as int, y as int),
    {
        proof {
            lemma_row_major_index_bound(
                self.area.width as int,
                self.area.height as int,
                x - self.area.x,
                y - self.area.y,
            );
        }
        let idx: usize = ((y - self.area.y) as usize) * (self.area.width as usize) + ((x
            - self.area.x) as usize);
        self.cells[idx]
    }

    /// Replace the cell at `(x, y)`, leaving every other cell unchanged.
    pub fn set(&mut self, x: u16, y: u16, cell: Cell)
        requires
            old(self).wf(),
            old(self).area.contains_cell(x as int, y as int),
        ensures
            final(self).wf(),
            final(self).area == old(self).area,
            final(self).cell_at(x as int, y as int) == cell,
            forall|xx: int, yy: int|
                old(self).area.contains_cell(xx, yy) && !(xx == x && yy == y)
                    ==> final(self).cell_at(xx, yy) == old(self).cell_at(xx, yy),
    {
        proof {
            lemma_row_major_index_bound(
                self.area.width as int,
                self.area.height as int,
                x - self.area.x,
                y - self.area.y,
            );
        }
        let idx: usize = ((y - self.area.y) as usize) * (self.area.width as usize) + ((x
            - self.area.x) as usize);
        self.cells.set(idx, cell);
        proof {
            assert forall|xx: int, yy: int|
                old(self).area.contains_cell(xx, yy) && !(xx == x && yy == y)
                    implies self.cell_at(xx, yy) == old(self).cell_at(xx, yy) by {
                lemma_row_major_index_bound(
                    self.area.width as int,
                    self.area.height as int,
                    xx - self.area.x,
                    yy - self.area.y,
                );
                lemma_row_major_index_injective(
                    self.area.width as int,
                    self.area.height as int,
                    xx - self.area.x,
                    yy - self.area.y,
                    x - self.area.x,
                    y - self.area.y,
                );
            }
        }
    }
}

/// The value a destination cell takes when a window of `tmp` is copied.
///
/// `(x, y)` is a destination cell inside `area`; it reads the source
/// cell `(h_offset + x - area.x, v_offset + y - area.y)`, counted from
/// the source's own corner. Beyond the source's extent the cell becomes
/// a blank carrying the fallback `style`.
pub open spec fn window_cell(
    tmp: Surface,
    v_offset: usize,
    h_offset: usize,
    style: u16,
    area: Rect,
    x: int,
    y: int,
) -> Cell {
    let sx = h_offset + (x - area.x);
    let sy = v_offset + (y - area.y);
    if sx < tmp.area.width && sy < tmp.area.height {
        tmp.cell_at(tmp.area.x + sx, tmp.area.y + sy)
    } else {
        Cell { symbol: ' ', style }
    }
}

/// Copies the window `[h_offset, h_offset + area.width) x [v_offset,
/// v_offset + area.height)` of `tmp` into `buf` at `area`.
///
/// Destination cells whose source coordinate lies beyond `tmp`'s extent
/// are painted with a blank in the fallback `style`; destination cells
/// outside `buf` are skipped, and cells of `buf` outside `area` keep
/// their value.
pub fn copy_buffer(
    tmp: &Surface,
    v_offset: usize,
    h_offset: usize,
    style: u16,
    area: Rect,
    buf: &mut Surface,
)
    requires
        tmp.wf(),
        area.wf(),
        old(buf).wf(),
    ensures
        final(buf).wf(),
        final(buf).area == old(buf).area,
        forall|x: int, y: int|
            old(buf).area.contains_cell(x, y) && area.contains_cell(x, y)
                ==> final(buf).cell_at(x, y) == window_cell(
                *tmp,
                v_offset,
                h_offset,
                style,
                area,
                x,
                y,
            ),
        forall|x: int, y: int|
            old(buf).area.contains_cell(x, y) && !area.contains_cell(x, y)
                ==> final(buf).cell_at(x, y) == old(buf).cell_at(x, y),
{
    let mut dy: u16 = 0;
    while dy < area.height
        invariant
            tmp.wf(),
            area.wf(),
            buf.wf(),
            buf.area == old(buf).area,
            dy <= area.height,
            forall|x: int, y: int| #![trigger area.contains_cell(x, y)]
                buf.area.contains_cell(x, y) && area.contains_cell(x, y) && y < area.y + dy
                    ==> buf.cell_at(x, y) == window_cell(
                    *tmp,
                    v_offset,
                    h_offset,
                    style,
                    area,
                    x,
                    y,
                ),
            forall|x: int, y: int| #![trigger buf.area.contains_cell(x, y)]
                buf.area.contains_cell(x, y) && !(area.contains_cell(x, y) && y < area.y + dy)
                    ==> buf.cell_at(x, y) == old(buf).cell_at(x, y),
        decreases area.height - dy,
    {
        let ty: u16 = area.y + dy;
        let mut dx: u16 = 0;
        while dx < area.width
            invariant
                tmp.wf(),
                area.wf(),
                buf.wf(),
                buf.area == old(buf).area,
                dy < area.height,
                ty == area.y + dy,
                dx <= area.width,
                forall|x: int, y: int| #![trigger area.contains_cell(x, y)]
                    buf.area.contains_cell(x, y) && area.contains_cell(x, y) && (y < area.y + dy
                        || (y == area.y + dy && x < area.x + dx)) ==> buf.cell_at(x, y)
                        == window_cell(*tmp, v_offset, h_offset, style, area, x, y),
                forall|x: int, y: int| #![trigger buf.area.contains_cell(x, y)]
                    buf.area.contains_cell(x, y) && !(area.contains_cell(x, y) && (y < area.y + dy
                        || (y == area.y + dy && x < area.x + dx))) ==> buf.cell_at(x, y)
                        == old(buf).cell_at(x, y),
            decreases area.width - dx,
        {
            let tx: u16 = area.x + dx;
            let ghost prev = *buf;
            if buf.area.contains(crate::layout::Position { x: tx, y: ty }) {
                let in_window = (dx as usize) < (tmp.area.width as usize).saturating_sub(h_offset)
                    && (dy as usize) < (tmp.area.height as usize).saturating_sub(v_offset);
                let cell = if in_window {
                    let gx: u16 = tmp.area.x + ((h_offset + dx as usize) as u16);
                    let gy: u16 = tmp.area.y + ((v_offset + dy as usize) as u16);
                    tmp.get(gx, gy)
                } else {
                    Cell { symbol: ' ', style }
                };
                proof {
                    assert(cell == window_cell(*tmp, v_offset, h_offset, style, area, tx as int, ty as int));
                }
                buf.set(tx, ty, cell);
            }
            proof {
                assert forall|x: int, y: int|
                    buf.area.contains_cell(x, y) && !(area.contains_cell(x, y) && (y < area.y + dy
                        || (y == area.y + dy && x < area.x + dx + 1))) implies buf.cell_at(x, y)
                        == old(buf).cell_at(x, y) by {
                    assert(!(x == tx && y == ty));
                    assert(!(area.contains_cell(x, y) && (y < area.y + dy || (y == area.y + dy
                        && x < area.x + dx))));
                    assert(prev.cell_at(x, y) == old(buf).cell_at(x, y));
                    assert(buf.cell_at(x, y) == prev.cell_at(x, y));
                }
                assert forall|x: int, y: int|
                    buf.area.contains_cell(x, y) && area.contains_cell(x, y) && (y < area.y + dy
                        || (y == area.y + dy && x < area.x + dx + 1)) implies buf.cell_at(x, y)
                        == window_cell(*tmp, v_offset, h_offset, style, area, x, y) by {
                    if !(x == tx && y == ty) {
                        assert(buf.cell_at(x, y) == prev.cell_at(x, y));
                    }
                }
            }
            dx = dx + 1;
        }
        dy = dy + 1;
    }
}

proof fn lemma_row_major_index_bound(w: int, h: int, xx: int, yy: int)
    requires
        0 <= xx < w,
        0 <= yy < h,
    ensures
        0 <= yy * w + xx < w * h,
{
    assert(yy * w + xx < w * h) by (nonlinear_arith)
        requires
            0 <= xx < w,
            0 <= yy < h,
    ;
}

proof fn lemma_row_major_index_injective(w: int, h: int, x1: int, y1: int, x2: int, y2: int)
    requires
        0 <= x1 < w,
        0 <= y1 < h,
        0 <= x2 < w,
        0 <= y2 < h,
        !(x1 == x2 && y1 == y2),
    ensures
        y1 * w + x1 != y2 * w + x2,
{
    assert(y1 * w + x1 != y2 * w + x2) by (nonlinear_arith)
        requires
            0 <= x1 < w,
            0 <= y1 < h,
            0 <= x2 < w,
            0 <= y2 < h,
            !(x1 == x2 && y1 == y2),
    ;
}

} // verus!
