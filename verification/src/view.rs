//! Scrolling for widgets without native scrolling support.
//!
//! A [`View`] owns a content widget and a declared view size. On every
//! render the content is drawn in full into an off-screen surface of
//! that size — the content never learns that it is being scrolled —
//! and the window selected by the state's offsets is copied into the
//! real destination. Destination cells beyond the content's extent are
//! painted with the view's fallback style.

use vstd::prelude::*;

use crate::buffer::{Cell, Surface, copy_buffer, window_cell};
use crate::layout::{Rect, Size};
use crate::{InnerWidget, ScrollingState, ScrollingWidget};

verus! {

/// Wraps a widget so that it can be scrolled through a window.
#[derive(Clone, Copy, Debug)]
pub struct View<T> {
    /// The wrapped content widget.
    pub widget: T,
    /// Size of the area the content widget is rendered into.
    pub view_size: Size,
    /// Style token for the space outside the content's extent.
    pub style: u16,
}

/// State of a [`View`]: the real drawing area, the larger area the
/// content is rendered into, and the window offsets.
#[derive(Clone, Copy, Debug, PartialEq, Eq, Structural)]
pub struct ViewState {
    /// The drawing area for the view.
    pub area: Rect,
    /// The area the content widget sees; sized to the declared view size.
    pub view_area: Rect,
    /// Horizontal cell offset of the window into the view area.
    pub h_offset: usize,
    /// Vertical cell offset of the window into the view area.
    pub v_offset: usize,
}

impl<T> View<T> {
    /// The declared view size.
    pub open spec fn view_size_spec(&self) -> Size {
        self.view_size
    }

    /// The fallback style token.
    pub open spec fn style_spec(&self) -> u16 {
        self.style
    }

    /// New view around `inner`, with an empty view size.
    pub fn new(inner: T) -> (r: View<T>)
        ensures
            r == (View { widget: inner, view_size: (Size { width: 0, height: 0 }), style: 0u16 }),
    {
        View { widget: inner, view_size: Size { width: 0, height: 0 }, style: 0 }
    }

    /// Size of the area the content widget is rendered into.
    pub fn view_size(self, size: Size) -> (r: View<T>)
        ensures
            r == (View { view_size: size, ..self }),
    {
        View { view_size: size, ..self }
    }

    /// Style for the space outside the content's extent.
    pub fn style(self, style: u16) -> (r: View<T>)
        ensures
            r == (View { style, ..self }),
    {
        View { style, ..self }
    }

    /// Renders the content into an off-screen surface of the declared
    /// view size, then copies the window at the state's offsets into
    /// `buf` at `area`.
    pub fn render<S>(&self, area: Rect, buf: &mut Surface, state: &mut ViewState, widget_state: &mut S)
        where T: InnerWidget<S>,
        requires
            area.wf(),
            area.x + self.view_size_spec().width <= u16::MAX,
            area.y + self.view_size_spec().height <= u16::MAX,
            old(buf).wf(),
        ensures
            final(buf).wf(),
            final(buf).area == old(buf).area,
            final(state).area == area,
            final(state).view_area == (Rect {
                x: area.x,
                y: area.y,
                width: self.view_size_spec().width,
                height: self.view_size_spec().height,
            }),
            final(state).h_offset == old(state).h_offset,
            final(state).v_offset == old(state).v_offset,
            // cells of `buf` outside `area` keep their value
            forall|x: int, y: int|
                old(buf).area.contains_cell(x, y) && !area.contains_cell(x, y)
                    ==> final(buf).cell_at(x, y) == old(buf).cell_at(x, y),
            // cells whose window coordinate lies beyond the view's extent
            // get a blank in the fallback style
            forall|x: int, y: int|
                old(buf).area.contains_cell(x, y) && area.contains_cell(x, y) && !(old(
                    state,
                ).h_offset + (x - area.x) < self.view_size_spec().width && old(state).v_offset + (y
                    - area.y) < self.view_size_spec().height) ==> final(buf).cell_at(x, y) == (Cell {
                    symbol: ' ',
                    style: self.style_spec(),
                }),
    {
        state.area = area;
        state.view_area = Rect::new(area.x, area.y, self.view_size.width, self.view_size.height);

        let mut tmp = Surface::new(state.view_area, Cell { symbol: ' ', style: self.style });

        self.widget.render_inner(state.view_area, &mut tmp, widget_state);

        copy_buffer(&tmp, state.v_offset, state.h_offset, self.style, area, buf);

        proof {
            assert forall|x: int, y: int|
                old(buf).area.contains_cell(x, y) && area.contains_cell(x, y) && !(old(
                    state,
                ).h_offset + (x - area.x) < self.view_size_spec().width && old(state).v_offset + (y
                    - area.y) < self.view_size_spec().height) implies buf.cell_at(x, y) == (Cell {
                    symbol: ' ',
                    style: self.style_spec(),
                }) by {
                assert(buf.cell_at(x, y) == window_cell(
                    tmp,
                    old(state).v_offset,
                    old(state).h_offset,
                    self.style_spec(),
                    area,
                    x,
                    y,
                ));
            }
        }
    }
}

impl<T: InnerWidget<()>> InnerWidget<ViewState> for View<T> {
    /// A view around a stateless widget is itself a widget whose state
    /// is the view state: rendering it renders the window. Degenerate
    /// coordinates that would push the view area past the grid's edge
    /// draw nothing.
    fn render_inner(&self, area: Rect, buf: &mut Surface, state: &mut ViewState) {
        let fits: bool = (area.x as u32) + (area.width as u32) <= u16::MAX as u32 && (area.y as u32)
            + (area.height as u32) <= u16::MAX as u32 && (area.x as u32) + (self.view_size.width
            as u32) <= u16::MAX as u32 && (area.y as u32) + (self.view_size.height as u32)
            <= u16::MAX as u32;
        if fits {
            let mut unit: () = ();
            self.render(area, buf, state, &mut unit);
        }
    }
}

impl<T, S> ScrollingWidget<S> for View<T> {
    /// Scrolling is wanted on an axis exactly when the available extent
    /// falls short of the declared view size on that axis.
    open spec fn needs_spec(&self, area: Rect, state: S) -> (bool, bool) {
        (area.width < self.view_size.width, area.height < self.view_size.height)
    }

    fn need_scroll(&self, area: Rect, state: &mut S) -> (r: (bool, bool)) {
        (area.width < self.view_size.width, area.height < self.view_size.height)
    }
}

/// State of a view around a widget with state of its own: the view
/// state beside the wrapped widget's.
#[derive(Clone, Copy, Debug, PartialEq, Eq)]
pub struct ViewportState<WState> {
    /// The window's own state.
    pub view: ViewState,
    /// State of the wrapped widget.
    pub widget: WState,
}

impl<WState: Default> Default for ViewportState<WState> {
    /// An empty view around the widget state's own default.
    fn default() -> (r: ViewportState<WState>)
        ensures
            r.view == (ViewState {
                area: Rect { x: 0, y: 0, width: 0, height: 0 },
                view_area: Rect { x: 0, y: 0, width: 0, height: 0 },
                h_offset: 0,
                v_offset: 0,
            }),
    {
        ViewportState { view: ViewState::new(), widget: Default::default() }
    }
}

impl<T: InnerWidget<WState>, WState> InnerWidget<ViewportState<WState>> for View<T> {
    /// A view around a stateful widget, as a widget over the paired
    /// state. Degenerate coordinates that would push the view area past
    /// the grid's edge draw nothing.
    fn render_inner(&self, area: Rect, buf: &mut Surface, state: &mut ViewportState<WState>) {
        let fits: bool = (area.x as u32) + (area.width as u32) <= u16::MAX as u32 && (area.y as u32)
            + (area.height as u32) <= u16::MAX as u32 && (area.x as u32) + (self.view_size.width
            as u32) <= u16::MAX as u32 && (area.y as u32) + (self.view_size.height as u32)
            <= u16::MAX as u32;
        if fits {
            self.render(area, buf, &mut state.view, &mut state.widget);
        }
    }
}

impl<WState> ScrollingState for ViewportState<WState> {
    open spec fn v_offset_spec(&self) -> usize {
        self.view.v_offset_spec()
    }

    open spec fn h_offset_spec(&self) -> usize {
        self.view.h_offset_spec()
    }

    open spec fn v_max_spec(&self) -> usize {
        self.view.v_max_spec()
    }

    open spec fn h_max_spec(&self) -> usize {
        self.view.h_max_spec()
    }

    open spec fn v_page_spec(&self) -> usize {
        self.view.v_page_spec()
    }

    open spec fn h_page_spec(&self) -> usize {
        self.view.h_page_spec()
    }

    open spec fn v_step_spec(&self) -> usize {
        self.view.v_step_spec()
    }

    open spec fn h_step_spec(&self) -> usize {
        self.view.h_step_spec()
    }

    open spec fn with_v_offset(self, offset: usize) -> ViewportState<WState> {
        ViewportState { view: self.view.with_v_offset(offset), ..self }
    }

    open spec fn with_h_offset(self, offset: usize) -> ViewportState<WState> {
        ViewportState { view: self.view.with_h_offset(offset), ..self }
    }

    fn vertical_offset(&self) -> usize {
        self.view.vertical_offset()
    }

    fn horizontal_offset(&self) -> usize {
        self.view.horizontal_offset()
    }

    fn vertical_max_offset(&self) -> usize {
        self.view.vertical_max_offset()
    }

    fn horizontal_max_offset(&self) -> usize {
        self.view.horizontal_max_offset()
    }

    fn vertical_page(&self) -> usize {
        self.view.vertical_page()
    }

    fn horizontal_page(&self) -> usize {
        self.view.horizontal_page()
    }

    fn vertical_scroll(&self) -> usize {
        self.view.vertical_scroll()
    }

    fn horizontal_scroll(&self) -> usize {
        self.view.horizontal_scroll()
    }

    fn set_vertical_offset(&mut self, offset: usize) -> bool {
        self.view.set_vertical_offset(offset)
    }

    fn set_horizontal_offset(&mut self, offset: usize) -> bool {
        self.view.set_horizontal_offset(offset)
    }
}

impl Default for ViewState {
    /// An empty view state: zero areas and offsets.
    fn default() -> (r: ViewState)
        ensures
            r == (ViewState {
                area: Rect { x: 0, y: 0, width: 0, height: 0 },
                view_area: Rect { x: 0, y: 0, width: 0, height: 0 },
                h_offset: 0,
                v_offset: 0,
            }),
    {
        ViewState {
            area: Rect { x: 0, y: 0, width: 0, height: 0 },
            view_area: Rect { x: 0, y: 0, width: 0, height: 0 },
            h_offset: 0,
            v_offset: 0,
        }
    }
}

impl ViewState {
    /// A fresh, empty view state.
    pub fn new() -> (r: ViewState)
        ensures
            r == (ViewState {
                area: Rect { x: 0, y: 0, width: 0, height: 0 },
                view_area: Rect { x: 0, y: 0, width: 0, height: 0 },
                h_offset: 0,
                v_offset: 0,
            }),
    {
        Self::default()
    }
}

impl ScrollingState for ViewState {
    open spec fn v_offset_spec(&self) -> usize {
        self.v_offset
    }

    open spec fn h_offset_spec(&self) -> usize {
        self.h_offset
    }

    /// The vertical range left over once the visible height is shown.
    open spec fn v_max_spec(&self) -> usize {
        if self.view_area.height > self.area.height {
            (self.view_area.height - self.area.height) as usize
        } else {
            0
        }
    }

    open spec fn h_max_spec(&self) -> usize {
        if self.view_area.width > self.area.width {
            (self.view_area.width - self.area.width) as usize
        } else {
            0
        }
    }

    open spec fn v_page_spec(&self) -> usize {
        self.area.height as usize
    }

    open spec fn h_page_spec(&self) -> usize {
        self.area.width as usize
    }

    open spec fn v_step_spec(&self) -> usize {
        if self.area.height as usize / 10 >= 1 {
            self.area.height as usize / 10
        } else {
            1
        }
    }

    open spec fn h_step_spec(&self) -> usize {
        if self.area.width as usize / 10 >= 1 {
            self.area.width as usize / 10
        } else {
            1
        }
    }

    /// Offsets are bounded by the view area itself: while the current
    /// offset is below the view's extent, a request is clamped to
    /// `[0, extent - 1]`; at or above it, the offset is pulled back to
    /// the last cell of that extent.
    open spec fn with_v_offset(self, offset: usize) -> ViewState {
        let last = if self.view_area.height > 0 {
            (self.view_area.height - 1) as usize
        } else {
            0
        };
        if self.v_offset < self.view_area.height as usize {
            ViewState {
                v_offset: if offset <= last {
                    offset
                } else {
                    last
                },
                ..self
            }
        } else {
            ViewState { v_offset: last, ..self }
        }
    }

    open spec fn with_h_offset(self, offset: usize) -> ViewState {
        let last = if self.view_area.width > 0 {
            (self.view_area.width - 1) as usize
        } else {
            0
        };
        if self.h_offset < self.view_area.width as usize {
            ViewState {
                h_offset: if offset <= last {
                    offset
                } else {
                    last
                },
                ..self
            }
        } else {
            ViewState { h_offset: last, ..self }
        }
    }

    fn vertical_offset(&self) -> usize {
        self.v_offset
    }

    fn horizontal_offset(&self) -> usize {
        self.h_offset
    }

    fn vertical_max_offset(&self) -> usize {
        self.view_area.height.saturating_sub(self.area.height) as usize
    }

    fn horizontal_max_offset(&self) -> usize {
        self.view_area.width.saturating_sub(self.area.width) as usize
    }

    fn vertical_page(&self) -> usize {
        self.area.height as usize
    }

    fn horizontal_page(&self) -> usize {
        self.area.width as usize
    }

    fn vertical_scroll(&self) -> usize {
        let step: usize = self.area.height as usize / 10;
        if step >= 1 {
            step
        } else {
            1
        }
    }

    fn horizontal_scroll(&self) -> usize {
        let step: usize = self.area.width as usize / 10;
        if step >= 1 {
            step
        } else {
            1
        }
    }

    fn set_vertical_offset(&mut self, offset: usize) -> bool {
        let old_offset: usize = self.v_offset;
        let last: usize = self.view_area.height.saturating_sub(1) as usize;

        if self.v_offset < self.view_area.height as usize {
            self.v_offset = if offset <= last {
                offset
            } else {
                last
            };
        } else {
            self.v_offset = last;
        }

        old_offset != self.v_offset
    }

    fn set_horizontal_offset(&mut self, offset: usize) -> bool {
        let old_offset: usize = self.h_offset;
        let last: usize = self.view_area.width.saturating_sub(1) as usize;

        if self.h_offset < self.view_area.width as usize {
            self.h_offset = if offset <= last {
                offset
            } else {
                last
            };
        } else {
            self.h_offset = last;
        }

        old_offset != self.h_offset
    }
}

} // verus!
