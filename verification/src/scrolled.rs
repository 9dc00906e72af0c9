//! A wrapper that adds scrolling behaviour to a content widget.
//!
//! [`Scrolled`] combines a widget that implements the scrolling
//! capabilities with a scrollbar policy per axis and up to two
//! scrollbar areas. Per render it decides which chrome is shown, lays
//! out the interior, renders the content and answers with what chrome
//! is left for the embedding to paint. Per event it owns the drag
//! state and turns pointer and wheel input into offset changes.

use vstd::prelude::*;

use crate::buffer::Surface;
use crate::event::{MouseEvent, ScrollOutcome};
use crate::layout::{Position, Rect, Size, hit_to_offset, hit_to_offset_spec};
use crate::scroll::{ScrollbarOrientation, ScrollbarRender};
use crate::view::View;
use crate::{InnerWidget, ScrollingState, ScrollingWidget};

verus! {

/// Whether an axis's scrollbar is shown.
///
/// Combined with the content's extent query, this decides per frame
/// what chrome to draw.
#[derive(Clone, Copy, Debug, PartialEq, Eq, Structural)]
pub enum ScrollbarPolicy {
    /// Show the scrollbar whether or not it is needed.
    Always,
    /// Show the scrollbar when the content asks for it.
    AsNeeded,
    /// Never show the scrollbar.
    Never,
}

/// Side of a vertical scrollbar.
#[derive(Clone, Copy, Debug, PartialEq, Eq, Structural)]
pub enum VScrollPosition {
    Left,
    Right,
}

/// Side of a horizontal scrollbar.
#[derive(Clone, Copy, Debug, PartialEq, Eq, Structural)]
pub enum HScrollPosition {
    Top,
    Bottom,
}

/// Qualifier wrapper: ask the composite to hand the event to the inner
/// widget's handler under the wrapped qualifier.
#[derive(Clone, Copy, Debug, PartialEq, Eq)]
pub struct Inner<Qualifier>(pub Qualifier);

impl ScrollbarPolicy {
    /// The policy applied to the content's wish.
    pub open spec fn apply_spec(self, scroll: bool) -> bool {
        match self {
            ScrollbarPolicy::Always => true,
            ScrollbarPolicy::AsNeeded => scroll,
            ScrollbarPolicy::Never => false,
        }
    }

    /// Applies the policy to the scroll wish received from the content.
    pub fn apply(&self, scroll: bool) -> (r: bool)
        ensures
            r == self.apply_spec(scroll),
    {
        match self {
            ScrollbarPolicy::Always => true,
            ScrollbarPolicy::AsNeeded => scroll,
            ScrollbarPolicy::Never => false,
        }
    }
}

impl Default for ScrollbarPolicy {
    /// Chrome shows only when needed unless said otherwise.
    fn default() -> (r: ScrollbarPolicy)
        ensures
            r == ScrollbarPolicy::AsNeeded,
    {
        ScrollbarPolicy::AsNeeded
    }
}

impl Default for VScrollPosition {
    fn default() -> (r: VScrollPosition)
        ensures
            r == VScrollPosition::Right,
    {
        VScrollPosition::Right
    }
}

impl Default for HScrollPosition {
    fn default() -> (r: HScrollPosition)
        ensures
            r == HScrollPosition::Bottom,
    {
        HScrollPosition::Bottom
    }
}

impl HScrollPosition {
    pub open spec fn orientation_spec(self) -> ScrollbarOrientation {
        match self {
            HScrollPosition::Top => ScrollbarOrientation::HorizontalTop,
            HScrollPosition::Bottom => ScrollbarOrientation::HorizontalBottom,
        }
    }

    /// The matching scrollbar orientation.
    pub fn orientation(&self) -> (r: ScrollbarOrientation)
        ensures
            r == self.orientation_spec(),
    {
        match self {
            HScrollPosition::Top => ScrollbarOrientation::HorizontalTop,
            HScrollPosition::Bottom => ScrollbarOrientation::HorizontalBottom,
        }
    }
}

impl VScrollPosition {
    pub open spec fn orientation_spec(self) -> ScrollbarOrientation {
        match self {
            VScrollPosition::Left => ScrollbarOrientation::VerticalLeft,
            VScrollPosition::Right => ScrollbarOrientation::VerticalRight,
        }
    }

    /// The matching scrollbar orientation.
    pub fn orientation(&self) -> (r: ScrollbarOrientation)
        ensures
            r == self.orientation_spec(),
    {
        match self {
            VScrollPosition::Left => ScrollbarOrientation::VerticalLeft,
            VScrollPosition::Right => ScrollbarOrientation::VerticalRight,
        }
    }
}

/// A widget wrapper that scrolls its content.
#[derive(Clone, Copy, Debug)]
pub struct Scrolled<T> {
    /// The wrapped content widget.
    pub widget: T,
    /// Allowed horizontal overscroll, in content units.
    pub h_overscroll: usize,
    /// Allowed vertical overscroll, in content units.
    pub v_overscroll: usize,
    /// Whether the horizontal scrollbar is shown.
    pub h_scroll_policy: ScrollbarPolicy,
    /// Whether the vertical scrollbar is shown.
    pub v_scroll_policy: ScrollbarPolicy,
    /// Side of the horizontal scrollbar.
    pub h_scroll_position: HScrollPosition,
    /// Side of the vertical scrollbar.
    pub v_scroll_position: VScrollPosition,
    /// Whether a decorative border frames the widget. A border reserves
    /// one cell on every side, and the scrollbars are drawn over it.
    pub block: bool,
}

/// The composite's state: the wrapped widget's state, this frame's
/// rectangles, the overscroll allowances and the drag flags.
#[derive(Clone, Copy, Debug, PartialEq, Eq)]
pub struct ScrolledState<WState> {
    /// State of the wrapped widget.
    pub widget: WState,
    /// Total area of the widget, as of the last render.
    pub area: Rect,
    /// Area the content is drawn into, as of the last render.
    pub view_area: Rect,
    /// Track of the horizontal scrollbar, when shown.
    pub h_scrollbar_area: Option<Rect>,
    /// Track of the vertical scrollbar, when shown.
    pub v_scrollbar_area: Option<Rect>,
    /// Allowed vertical overscroll, in content units.
    pub v_overscroll: usize,
    /// Allowed horizontal overscroll, in content units.
    pub h_overscroll: usize,
    /// Whether a drag on the vertical scrollbar is in progress.
    pub v_drag: bool,
    /// Whether a drag on the horizontal scrollbar is in progress.
    pub h_drag: bool,
}

impl<T> Scrolled<T> {
    /// Wraps `inner`, with both policies on as-needed, the scrollbars
    /// right and bottom, no overscroll and no border.
    pub fn new(inner: T) -> (r: Scrolled<T>)
        ensures
            r.widget == inner,
            r.h_overscroll == 0,
            r.v_overscroll == 0,
            r.h_scroll_policy == ScrollbarPolicy::AsNeeded,
            r.v_scroll_policy == ScrollbarPolicy::AsNeeded,
            r.h_scroll_position == HScrollPosition::Bottom,
            r.v_scroll_position == VScrollPosition::Right,
            !r.block,
    {
        Scrolled {
            widget: inner,
            h_overscroll: 0,
            v_overscroll: 0,
            h_scroll_policy: ScrollbarPolicy::AsNeeded,
            v_scroll_policy: ScrollbarPolicy::AsNeeded,
            h_scroll_position: HScrollPosition::Bottom,
            v_scroll_position: VScrollPosition::Right,
            block: false,
        }
    }

    /// Allow scrolling `n` past the vertical `max_offset`.
    pub fn vertical_overscroll(self, n: usize) -> (r: Scrolled<T>)
        ensures
            r == (Scrolled { v_overscroll: n, ..self }),
    {
        Scrolled { v_overscroll: n, ..self }
    }

    /// Allow scrolling `n` past the horizontal `max_offset`.
    pub fn horizontal_overscroll(self, n: usize) -> (r: Scrolled<T>)
        ensures
            r == (Scrolled { h_overscroll: n, ..self }),
    {
        Scrolled { h_overscroll: n, ..self }
    }

    /// Whether the horizontal scrollbar is shown.
    pub fn horizontal_scrollbar_policy(self, policy: ScrollbarPolicy) -> (r: Scrolled<T>)
        ensures
            r == (Scrolled { h_scroll_policy: policy, ..self }),
    {
        Scrolled { h_scroll_policy: policy, ..self }
    }

    /// Whether the vertical scrollbar is shown.
    pub fn vertical_scrollbar_policy(self, policy: ScrollbarPolicy) -> (r: Scrolled<T>)
        ensures
            r == (Scrolled { v_scroll_policy: policy, ..self }),
    {
        Scrolled { v_scroll_policy: policy, ..self }
    }

    /// Side of the horizontal scrollbar.
    pub fn horizontal_scroll_position(self, pos: HScrollPosition) -> (r: Scrolled<T>)
        ensures
            r == (Scrolled { h_scroll_position: pos, ..self }),
    {
        Scrolled { h_scroll_position: pos, ..self }
    }

    /// Side of the vertical scrollbar.
    pub fn vertical_scroll_position(self, pos: VScrollPosition) -> (r: Scrolled<T>)
        ensures
            r == (Scrolled { v_scroll_position: pos, ..self }),
    {
        Scrolled { v_scroll_position: pos, ..self }
    }

    /// Frame the widget with a border; the scrollbars are drawn as part
    /// of it. The layout treats the border as one reserved cell on every
    /// side, so a border drawn with fewer sides still loses the full
    /// frame; in particular the sides that carry a scrollbar must have
    /// a border, or the placement will be off.
    pub fn block(self) -> (r: Scrolled<T>)
        ensures
            r == (Scrolled { block: true, ..self }),
    {
        Scrolled { block: true, ..self }
    }
}

impl<W> Scrolled<View<W>> {
    /// Wraps a widget without scrolling support of its own in a
    /// [`View`], so that it scrolls through a window. Set a
    /// [`Self::view_size`] for the area the widget shall receive.
    pub fn new_view(inner: W) -> (r: Scrolled<View<W>>)
        ensures
            r.widget.view_size == (Size { width: 0, height: 0 }),
            r.h_overscroll == 0,
            r.v_overscroll == 0,
            r.h_scroll_policy == ScrollbarPolicy::AsNeeded,
            r.v_scroll_policy == ScrollbarPolicy::AsNeeded,
            r.h_scroll_position == HScrollPosition::Bottom,
            r.v_scroll_position == VScrollPosition::Right,
            !r.block,
    {
        Scrolled::new(View::new(inner))
    }

    /// Like [`Self::new_view`], for a widget with state of its own:
    /// use it with a state of [`crate::view::ViewportState`] around
    /// the widget's.
    pub fn new_viewport(inner: W) -> (r: Scrolled<View<W>>)
        ensures
            r.widget.view_size == (Size { width: 0, height: 0 }),
            r.h_overscroll == 0,
            r.v_overscroll == 0,
            r.h_scroll_policy == ScrollbarPolicy::AsNeeded,
            r.v_scroll_policy == ScrollbarPolicy::AsNeeded,
            r.h_scroll_position == HScrollPosition::Bottom,
            r.v_scroll_position == VScrollPosition::Right,
            !r.block,
    {
        Scrolled::new(View::new(inner))
    }

    /// Size of the area the inner widget is rendered into.
    pub fn view_size(self, size: Size) -> (r: Scrolled<View<W>>)
        ensures
            r == (Scrolled { widget: (View { view_size: size, ..self.widget }), ..self }),
    {
        let widget = self.widget.view_size(size);
        Scrolled { widget, ..self }
    }

    /// Style for the space outside the rendered content.
    pub fn view_style(self, style: u16) -> (r: Scrolled<View<W>>)
        ensures
            r == (Scrolled { widget: (View { style, ..self.widget }), ..self }),
    {
        let widget = self.widget.style(style);
        Scrolled { widget, ..self }
    }
}

impl<WState: Default> Default for ScrolledState<WState> {
    /// A fresh state around the widget state's own default: empty
    /// rectangles, no scrollbars, no overscroll, no drag.
    fn default() -> (r: ScrolledState<WState>)
        ensures
            r.area == (Rect { x: 0, y: 0, width: 0, height: 0 }),
            r.view_area == (Rect { x: 0, y: 0, width: 0, height: 0 }),
            r.h_scrollbar_area is None,
            r.v_scrollbar_area is None,
            r.v_overscroll == 0,
            r.h_overscroll == 0,
            !r.v_drag,
            !r.h_drag,
    {
        ScrolledState {
            widget: Default::default(),
            area: Rect { x: 0, y: 0, width: 0, height: 0 },
            view_area: Rect { x: 0, y: 0, width: 0, height: 0 },
            h_scrollbar_area: None,
            v_scrollbar_area: None,
            v_overscroll: 0,
            h_overscroll: 0,
            v_drag: false,
            h_drag: false,
        }
    }
}

impl<WState: ScrollingState> ScrolledState<WState> {
    /// The cap this wrapper hands to the widget's vertical setter:
    /// the widget's own maximum plus the allowed overscroll, saturating.
    pub open spec fn v_limit_spec(&self) -> usize {
        if self.widget.v_max_spec() + self.v_overscroll <= usize::MAX {
            (self.widget.v_max_spec() + self.v_overscroll) as usize
        } else {
            usize::MAX
        }
    }

    /// The horizontal counterpart of [`Self::v_limit_spec`].
    pub open spec fn h_limit_spec(&self) -> usize {
        if self.widget.h_max_spec() + self.h_overscroll <= usize::MAX {
            (self.widget.h_max_spec() + self.h_overscroll) as usize
        } else {
            usize::MAX
        }
    }

    /// A requested vertical offset pulled back to the cap.
    pub open spec fn v_target_spec(&self, offset: usize) -> usize {
        if offset <= self.v_limit_spec() {
            offset
        } else {
            self.v_limit_spec()
        }
    }

    /// A requested horizontal offset pulled back to the cap.
    pub open spec fn h_target_spec(&self, offset: usize) -> usize {
        if offset <= self.h_limit_spec() {
            offset
        } else {
            self.h_limit_spec()
        }
    }

    /// Current vertical offset of the widget.
    pub fn vertical_offset(&self) -> (r: usize)
        ensures
            r == self.widget.v_offset_spec(),
    {
        self.widget.vertical_offset()
    }

    /// Current horizontal offset of the widget.
    pub fn horizontal_offset(&self) -> (r: usize)
        ensures
            r == self.widget.h_offset_spec(),
    {
        self.widget.horizontal_offset()
    }

    /// Hands the widget the requested offset, pulled back to
    /// `max_offset + overscroll`; reports whether the widget's stored
    /// offset changed.
    ///
    /// Overscroll can make this an invalid offset for the widget; the
    /// widget must tolerate that.
    pub fn set_vertical_offset(&mut self, offset: usize) -> (r: bool)
        ensures
            *final(self) == (ScrolledState {
                widget: old(self).widget.with_v_offset(old(self).v_target_spec(offset)),
                ..*old(self)
            }),
            r == (final(self).widget.v_offset_spec() != old(self).widget.v_offset_spec()),
    {
        let lim: usize = self.widget.vertical_max_offset().saturating_add(self.v_overscroll);
        let voffset: usize = if offset <= lim {
            offset
        } else {
            lim
        };
        self.widget.set_vertical_offset(voffset)
    }

    /// The horizontal counterpart of [`Self::set_vertical_offset`].
    pub fn set_horizontal_offset(&mut self, offset: usize) -> (r: bool)
        ensures
            *final(self) == (ScrolledState {
                widget: old(self).widget.with_h_offset(old(self).h_target_spec(offset)),
                ..*old(self)
            }),
            r == (final(self).widget.h_offset_spec() != old(self).widget.h_offset_spec()),
    {
        let lim: usize = self.widget.horizontal_max_offset().saturating_add(self.h_overscroll);
        let hoffset: usize = if offset <= lim {
            offset
        } else {
            lim
        };
        self.widget.set_horizontal_offset(hoffset)
    }

    /// Scrolls up by `n`, saturating at `0`; reports a change.
    pub fn scroll_up(&mut self, n: usize) -> (r: bool)
        ensures
            *final(self) == (ScrolledState {
                widget: old(self).widget.with_v_offset(
                    old(self).v_target_spec(
                        if n <= old(self).widget.v_offset_spec() {
                            (old(self).widget.v_offset_spec() - n) as usize
                        } else {
                            0
                        },
                    ),
                ),
                ..*old(self)
            }),
            r == (final(self).widget.v_offset_spec() != old(self).widget.v_offset_spec()),
    {
        let offset: usize = self.vertical_offset().saturating_sub(n);
        self.set_vertical_offset(offset)
    }

    /// Scrolls down by `n`, limited to the widget's maximum plus the
    /// allowed overscroll; reports a change.
    pub fn scroll_down(&mut self, n: usize) -> (r: bool)
        ensures
            *final(self) == (ScrolledState {
                widget: old(self).widget.with_v_offset(
                    old(self).v_target_spec(
                        if old(self).widget.v_offset_spec() + n <= usize::MAX {
                            (old(self).widget.v_offset_spec() + n) as usize
                        } else {
                            usize::MAX
                        },
                    ),
                ),
                ..*old(self)
            }),
            r == (final(self).widget.v_offset_spec() != old(self).widget.v_offset_spec()),
    {
        let offset: usize = self.vertical_offset().saturating_add(n);
        self.set_vertical_offset(offset)
    }

    /// Scrolls left by `n`, saturating at `0`; reports a change.
    pub fn scroll_left(&mut self, n: usize) -> (r: bool)
        ensures
            *final(self) == (ScrolledState {
                widget: old(self).widget.with_h_offset(
                    old(self).h_target_spec(
                        if n <= old(self).widget.h_offset_spec() {
                            (old(self).widget.h_offset_spec() - n) as usize
                        } else {
                            0
                        },
                    ),
                ),
                ..*old(self)
            }),
            r == (final(self).widget.h_offset_spec() != old(self).widget.h_offset_spec()),
    {
        let offset: usize = self.horizontal_offset().saturating_sub(n);
        self.set_horizontal_offset(offset)
    }

    /// Scrolls right by `n`, limited to the widget's maximum plus the
    /// allowed overscroll; reports a change.
    pub fn scroll_right(&mut self, n: usize) -> (r: bool)
        ensures
            *final(self) == (ScrolledState {
                widget: old(self).widget.with_h_offset(
                    old(self).h_target_spec(
                        if old(self).widget.h_offset_spec() + n <= usize::MAX {
                            (old(self).widget.h_offset_spec() + n) as usize
                        } else {
                            usize::MAX
                        },
                    ),
                ),
                ..*old(self)
            }),
            r == (final(self).widget.h_offset_spec() != old(self).widget.h_offset_spec()),
    {
        let offset: usize = self.horizontal_offset().saturating_add(n);
        self.set_horizontal_offset(offset)
    }

    /// The wrapped widget's state, for direct access.
    pub fn widget_mut(&mut self) -> &mut WState {
        &mut self.widget
    }
}

/// The interior of a one-cell border around `area`.
pub open spec fn block_inner_spec(area: Rect) -> Rect {
    Rect {
        x: if area.x + 1 <= u16::MAX {
            (area.x + 1) as u16
        } else {
            u16::MAX
        },
        y: if area.y + 1 <= u16::MAX {
            (area.y + 1) as u16
        } else {
            u16::MAX
        },
        width: if area.width >= 2 {
            (area.width - 2) as u16
        } else {
            0
        },
        height: if area.height >= 2 {
            (area.height - 2) as u16
        } else {
            0
        },
    }
}

impl<T> Scrolled<T> {
    /// The area offered to the content's extent query: the border's
    /// interior when there is one, else the outer area less the cells
    /// reserved for the configured scrollbar axes.
    pub open spec fn tentative_view_spec(&self, area: Rect) -> Rect {
        if self.block {
            block_inner_spec(area)
        } else {
            Rect {
                x: area.x,
                y: area.y,
                width: if self.h_scroll_policy != ScrollbarPolicy::Never {
                    if area.width >= 1 {
                        (area.width - 1) as u16
                    } else {
                        0
                    }
                } else {
                    area.width
                },
                height: if self.v_scroll_policy != ScrollbarPolicy::Never {
                    if area.height >= 1 {
                        (area.height - 1) as u16
                    } else {
                        0
                    }
                } else {
                    area.height
                },
            }
        }
    }

    /// The vertical track: the outer area's last column, below the
    /// border's top row, stopping short of a shown horizontal track.
    pub open spec fn v_bar_area_spec(&self, area: Rect, has_h: bool) -> Rect {
        let y = if self.block {
            if area.y + 1 <= u16::MAX {
                (area.y + 1) as u16
            } else {
                u16::MAX
            }
        } else {
            area.y
        };
        let h1 = if self.block {
            if area.height >= 1 {
                (area.height - 1) as u16
            } else {
                0
            }
        } else {
            area.height
        };
        let h2 = if has_h {
            if h1 >= 1 {
                (h1 - 1) as u16
            } else {
                0
            }
        } else {
            h1
        };
        Rect { x: (area.x + area.width - 1) as u16, y, width: 1, height: h2 }
    }

    /// The horizontal track: the outer area's last row, right of the
    /// border's left column, stopping short of a shown vertical track.
    pub open spec fn h_bar_area_spec(&self, area: Rect, has_v: bool) -> Rect {
        let x = if self.block {
            if area.x + 1 <= u16::MAX {
                (area.x + 1) as u16
            } else {
                u16::MAX
            }
        } else {
            area.x
        };
        let w1 = if self.block {
            if area.width >= 1 {
                (area.width - 1) as u16
            } else {
                0
            }
        } else {
            area.width
        };
        let w2 = if has_v {
            if w1 >= 1 {
                (w1 - 1) as u16
            } else {
                0
            }
        } else {
            w1
        };
        Rect { x, y: (area.y + area.height - 1) as u16, width: w2, height: 1 }
    }

    /// The area the content is finally drawn into: the border's
    /// interior when there is one, else the outer area less the cells
    /// of the shown tracks.
    pub open spec fn view_area_spec(&self, area: Rect, has_h: bool, has_v: bool) -> Rect {
        if self.block {
            block_inner_spec(area)
        } else {
            Rect {
                x: area.x,
                y: area.y,
                width: if has_v {
                    if area.width >= 1 {
                        (area.width - 1) as u16
                    } else {
                        0
                    }
                } else {
                    area.width
                },
                height: if has_h {
                    if area.height >= 1 {
                        (area.height - 1) as u16
                    } else {
                        0
                    }
                } else {
                    area.height
                },
            }
        }
    }

    /// One render pass of the composite.
    ///
    /// Queries the content's extent wish against a tentative interior,
    /// applies the per-axis policies, lays out the tracks and the final
    /// interior — shortening each track by one cell where the other is
    /// shown, so the corner cell is never drawn twice — renders the
    /// content, and answers with what scrollbar chrome is left for the
    /// embedding to paint over any border: a live scrollbar where there
    /// is something to scroll, a restyled track where there is not.
    pub fn render<S>(&self, area: Rect, buf: &mut Surface, state: &mut ScrolledState<S>) -> (plans: (
        Option<ScrollbarRender>,
        Option<ScrollbarRender>,
    )) where T: InnerWidget<S> + ScrollingWidget<S>, S: ScrollingState
        requires
            area.wf(),
            old(buf).wf(),
        ensures
            final(state).area == area,
            final(state).v_overscroll == self.v_overscroll,
            final(state).h_overscroll == self.h_overscroll,
            final(state).v_drag == old(state).v_drag,
            final(state).h_drag == old(state).h_drag,
            final(buf).wf(),
            final(buf).area == old(buf).area,
            ({
                let needs = self.widget.needs_spec(self.tentative_view_spec(area), old(state).widget);
                let has_h = self.h_scroll_policy.apply_spec(needs.0);
                let has_v = self.v_scroll_policy.apply_spec(needs.1);
                &&& final(state).v_scrollbar_area == (if has_v && area.width > 0 {
                    Some(self.v_bar_area_spec(area, has_h))
                } else {
                    None::<Rect>
                })
                &&& final(state).h_scrollbar_area == (if has_h && area.height > 0 {
                    Some(self.h_bar_area_spec(area, has_v))
                } else {
                    None::<Rect>
                })
                &&& final(state).view_area == self.view_area_spec(area, has_h, has_v)
            }),
            plans.1 == (match final(state).v_scrollbar_area {
                Some(va) => Some(
                    if final(state).widget.v_max_spec() == 0 {
                        ScrollbarRender::TrackOnly {
                            area: va,
                            orientation: self.v_scroll_position.orientation_spec(),
                        }
                    } else {
                        ScrollbarRender::Bar {
                            area: va,
                            orientation: self.v_scroll_position.orientation_spec(),
                            max_offset: final(state).widget.v_max_spec(),
                            offset: final(state).widget.v_offset_spec(),
                            page_len: final(state).widget.v_page_spec(),
                        }
                    },
                ),
                None => None::<ScrollbarRender>,
            }),
            plans.0 == (match final(state).h_scrollbar_area {
                Some(ha) => Some(
                    if final(state).widget.h_max_spec() == 0 {
                        ScrollbarRender::TrackOnly {
                            area: ha,
                            orientation: self.h_scroll_position.orientation_spec(),
                        }
                    } else {
                        ScrollbarRender::Bar {
                            area: ha,
                            orientation: self.h_scroll_position.orientation_spec(),
                            max_offset: final(state).widget.h_max_spec(),
                            offset: final(state).widget.h_offset_spec(),
                            page_len: final(state).widget.h_page_spec(),
                        }
                    },
                ),
                None => None::<ScrollbarRender>,
            }),
    {
        let view_area_t: Rect = if self.block {
            Rect {
                x: area.x.saturating_add(1),
                y: area.y.saturating_add(1),
                width: area.width.saturating_sub(2),
                height: area.height.saturating_sub(2),
            }
        } else {
            let w: u16 = if self.h_scroll_policy != ScrollbarPolicy::Never {
                area.width.saturating_sub(1)
            } else {
                area.width
            };
            let h: u16 = if self.v_scroll_policy != ScrollbarPolicy::Never {
                area.height.saturating_sub(1)
            } else {
                area.height
            };
            Rect { x: area.x, y: area.y, width: w, height: h }
        };

        let scroll_param: (bool, bool) = self.widget.need_scroll(view_area_t, &mut state.widget);

        state.area = area;
        state.v_overscroll = self.v_overscroll;
        state.h_overscroll = self.h_overscroll;

        let has_hscroll: bool = self.h_scroll_policy.apply(scroll_param.0);
        let has_vscroll: bool = self.v_scroll_policy.apply(scroll_param.1);

        if has_vscroll && area.width > 0 {
            let mut bar_y: u16 = area.y;
            let mut bar_h: u16 = area.height;
            if self.block {
                bar_y = bar_y.saturating_add(1);
                bar_h = bar_h.saturating_sub(1);
            }
            if has_hscroll {
                bar_h = bar_h.saturating_sub(1);
            }
            state.v_scrollbar_area = Some(
                Rect { x: area.x + (area.width - 1), y: bar_y, width: 1, height: bar_h },
            );
        } else {
            state.v_scrollbar_area = None;
        }

        if has_hscroll && area.height > 0 {
            let mut bar_x: u16 = area.x;
            let mut bar_w: u16 = area.width;
            if self.block {
                bar_x = bar_x.saturating_add(1);
                bar_w = bar_w.saturating_sub(1);
            }
            if has_vscroll {
                bar_w = bar_w.saturating_sub(1);
            }
            state.h_scrollbar_area = Some(
                Rect { x: bar_x, y: area.y + (area.height - 1), width: bar_w, height: 1 },
            );
        } else {
            state.h_scrollbar_area = None;
        }

        if self.block {
            state.view_area = Rect {
                x: area.x.saturating_add(1),
                y: area.y.saturating_add(1),
                width: area.width.saturating_sub(2),
                height: area.height.saturating_sub(2),
            };
        } else {
            let w: u16 = if has_vscroll {
                area.width.saturating_sub(1)
            } else {
                area.width
            };
            let h: u16 = if has_hscroll {
                area.height.saturating_sub(1)
            } else {
                area.height
            };
            state.view_area = Rect { x: area.x, y: area.y, width: w, height: h };
        }

        self.widget.render_inner(state.view_area, buf, &mut state.widget);

        let v_plan: Option<ScrollbarRender> = match state.v_scrollbar_area {
            Some(va) => {
                let max: usize = state.widget.vertical_max_offset();
                if max == 0 {
                    Some(
                        ScrollbarRender::TrackOnly {
                            area: va,
                            orientation: self.v_scroll_position.orientation(),
                        },
                    )
                } else {
                    Some(
                        ScrollbarRender::Bar {
                            area: va,
                            orientation: self.v_scroll_position.orientation(),
                            max_offset: max,
                            offset: state.widget.vertical_offset(),
                            page_len: state.widget.vertical_page(),
                        },
                    )
                }
            },
            None => None,
        };
        let h_plan: Option<ScrollbarRender> = match state.h_scrollbar_area {
            Some(ha) => {
                let max: usize = state.widget.horizontal_max_offset();
                if max == 0 {
                    Some(
                        ScrollbarRender::TrackOnly {
                            area: ha,
                            orientation: self.h_scroll_position.orientation(),
                        },
                    )
                } else {
                    Some(
                        ScrollbarRender::Bar {
                            area: ha,
                            orientation: self.h_scroll_position.orientation(),
                            max_offset: max,
                            offset: state.widget.horizontal_offset(),
                            page_len: state.widget.horizontal_page(),
                        },
                    )
                }
            },
            None => None,
        };

        (h_plan, v_plan)
    }
}

/// Whether a pointer-down on the shown vertical track.
pub open spec fn down_on_v_spec<W: ScrollingState>(
    s: ScrolledState<W>,
    column: u16,
    row: u16,
) -> bool {
    match s.v_scrollbar_area {
        Some(va) => va.contains_cell(column as int, row as int),
        None => false,
    }
}

/// Whether a pointer-down on the shown horizontal track.
pub open spec fn down_on_h_spec<W: ScrollingState>(
    s: ScrolledState<W>,
    column: u16,
    row: u16,
) -> bool {
    match s.h_scrollbar_area {
        Some(ha) => ha.contains_cell(column as int, row as int),
        None => false,
    }
}

/// The offset a pointer row on the vertical track asks for.
pub open spec fn v_hit_spec<W: ScrollingState>(s: ScrolledState<W>, row: u16) -> usize {
    match s.v_scrollbar_area {
        Some(va) => hit_to_offset_spec(row, va.y, va.height, s.widget.v_max_spec()) as usize,
        None => 0,
    }
}

/// The offset a pointer column on the horizontal track asks for.
pub open spec fn h_hit_spec<W: ScrollingState>(s: ScrolledState<W>, column: u16) -> usize {
    match s.h_scrollbar_area {
        Some(ha) => hit_to_offset_spec(column, ha.x, ha.width, s.widget.h_max_spec()) as usize,
        None => 0,
    }
}

/// `a + b`, saturating at the machine limit.
pub open spec fn sat_add_spec(a: usize, b: usize) -> usize {
    if a + b <= usize::MAX {
        (a + b) as usize
    } else {
        usize::MAX
    }
}

/// `a - b`, saturating at `0`.
pub open spec fn sat_sub_spec(a: usize, b: usize) -> usize {
    if b <= a {
        (a - b) as usize
    } else {
        0
    }
}

/// How a pointer or wheel event changes the composite's state.
///
/// Pointer-down inside a shown track hands the hit position straight to
/// the widget and starts that axis's drag; pointer-drag while a drag is
/// in progress repeats the hit, pulled back to `max_offset` plus the
/// overscroll allowance; pointer movement without a button ends both
/// drags; a wheel event inside the widget's area scrolls one suggested
/// step, the modifier turning the wheel horizontal.
pub open spec fn handle_mouse_state_spec<W: ScrollingState>(
    s: ScrolledState<W>,
    e: MouseEvent,
) -> ScrolledState<W> {
    match e {
        MouseEvent::Down { column, row } => if down_on_v_spec(s, column, row) {
            ScrolledState { v_drag: true, widget: s.widget.with_v_offset(v_hit_spec(s, row)), ..s }
        } else if down_on_h_spec(s, column, row) {
            ScrolledState {
                h_drag: true,
                widget: s.widget.with_h_offset(h_hit_spec(s, column)),
                ..s
            }
        } else {
            s
        },
        MouseEvent::Drag { column, row } => if s.v_drag && s.v_scrollbar_area is Some {
            ScrolledState {
                widget: s.widget.with_v_offset(s.v_target_spec(v_hit_spec(s, row))),
                ..s
            }
        } else if s.h_drag && s.h_scrollbar_area is Some {
            ScrolledState {
                widget: s.widget.with_h_offset(s.h_target_spec(h_hit_spec(s, column))),
                ..s
            }
        } else {
            s
        },
        MouseEvent::Moved => ScrolledState { v_drag: false, h_drag: false, ..s },
        MouseEvent::ScrollDown { column, row, alt } => if s.area.contains_cell(
            column as int,
            row as int,
        ) {
            if !alt {
                ScrolledState {
                    widget: s.widget.with_v_offset(
                        s.v_target_spec(sat_add_spec(s.widget.v_offset_spec(), s.widget.v_step_spec())),
                    ),
                    ..s
                }
            } else {
                ScrolledState {
                    widget: s.widget.with_h_offset(
                        s.h_target_spec(sat_add_spec(s.widget.h_offset_spec(), s.widget.h_step_spec())),
                    ),
                    ..s
                }
            }
        } else {
            s
        },
        MouseEvent::ScrollUp { column, row, alt } => if s.area.contains_cell(
            column as int,
            row as int,
        ) {
            if !alt {
                ScrolledState {
                    widget: s.widget.with_v_offset(
                        sat_sub_spec(s.widget.v_offset_spec(), s.widget.v_step_spec()),
                    ),
                    ..s
                }
            } else {
                ScrolledState {
                    widget: s.widget.with_h_offset(
                        sat_sub_spec(s.widget.h_offset_spec(), s.widget.h_step_spec()),
                    ),
                    ..s
                }
            }
        } else {
            s
        },
        _ => s,
    }
}

/// What the composite answers: `Changed` when the event was its
/// business and an offset moved, `Continue` otherwise.
pub open spec fn handle_mouse_outcome_spec<W: ScrollingState, R>(
    s: ScrolledState<W>,
    e: MouseEvent,
) -> ScrollOutcome<R> {
    let s2 = handle_mouse_state_spec(s, e);
    let v_moved = s2.widget.v_offset_spec() != s.widget.v_offset_spec();
    let h_moved = s2.widget.h_offset_spec() != s.widget.h_offset_spec();
    match e {
        MouseEvent::Down { column, row } => if down_on_v_spec(s, column, row) {
            if v_moved {
                ScrollOutcome::Changed
            } else {
                ScrollOutcome::Continue
            }
        } else if down_on_h_spec(s, column, row) {
            if h_moved {
                ScrollOutcome::Changed
            } else {
                ScrollOutcome::Continue
            }
        } else {
            ScrollOutcome::Continue
        },
        MouseEvent::Drag { column, row } => if s.v_drag && s.v_scrollbar_area is Some {
            if v_moved {
                ScrollOutcome::Changed
            } else {
                ScrollOutcome::Continue
            }
        } else if s.h_drag && s.h_scrollbar_area is Some {
            if h_moved {
                ScrollOutcome::Changed
            } else {
                ScrollOutcome::Continue
            }
        } else {
            ScrollOutcome::Continue
        },
        MouseEvent::ScrollDown { column, row, alt } => if s.area.contains_cell(
            column as int,
            row as int,
        ) {
            if (!alt && v_moved) || (alt && h_moved) {
                ScrollOutcome::Changed
            } else {
                ScrollOutcome::Continue
            }
        } else {
            ScrollOutcome::Continue
        },
        MouseEvent::ScrollUp { column, row, alt } => if s.area.contains_cell(
            column as int,
            row as int,
        ) {
            if (!alt && v_moved) || (alt && h_moved) {
                ScrollOutcome::Changed
            } else {
                ScrollOutcome::Continue
            }
        } else {
            ScrollOutcome::Continue
        },
        _ => ScrollOutcome::Continue,
    }
}

impl<WState: ScrollingState> ScrolledState<WState> {
    /// Answers the pointer and wheel events that belong to the
    /// composite's own chrome: track clicks and drags, drag
    /// termination, and wheel scrolling over the widget's area.
    pub fn handle_mouse<R>(&mut self, event: &MouseEvent) -> (r: ScrollOutcome<R>)
        ensures
            *final(self) == handle_mouse_state_spec(*old(self), *event),
            r == handle_mouse_outcome_spec::<WState, R>(*old(self), *event),
    {
        match *event {
            MouseEvent::Down { column, row } => {
                if let Some(va) = self.v_scrollbar_area {
                    if va.contains(Position { x: column, y: row }) {
                        let pos: usize = hit_to_offset(
                            row,
                            va.y,
                            va.height,
                            self.widget.vertical_max_offset(),
                        );
                        self.v_drag = true;
                        if self.widget.set_vertical_offset(pos) {
                            return ScrollOutcome::Changed;
                        } else {
                            return ScrollOutcome::Continue;
                        }
                    }
                }
                if let Some(ha) = self.h_scrollbar_area {
                    if ha.contains(Position { x: column, y: row }) {
                        let pos: usize = hit_to_offset(
                            column,
                            ha.x,
                            ha.width,
                            self.widget.horizontal_max_offset(),
                        );
                        self.h_drag = true;
                        if self.widget.set_horizontal_offset(pos) {
                            return ScrollOutcome::Changed;
                        } else {
                            return ScrollOutcome::Continue;
                        }
                    }
                }
                ScrollOutcome::Continue
            },
            MouseEvent::Drag { column, row } => {
                if self.v_drag {
                    if let Some(va) = self.v_scrollbar_area {
                        let pos: usize = hit_to_offset(
                            row,
                            va.y,
                            va.height,
                            self.widget.vertical_max_offset(),
                        );
                        if self.set_vertical_offset(pos) {
                            return ScrollOutcome::Changed;
                        } else {
                            return ScrollOutcome::Continue;
                        }
                    }
                }
                if self.h_drag {
                    if let Some(ha) = self.h_scrollbar_area {
                        let pos: usize = hit_to_offset(
                            column,
                            ha.x,
                            ha.width,
                            self.widget.horizontal_max_offset(),
                        );
                        if self.set_horizontal_offset(pos) {
                            return ScrollOutcome::Changed;
                        } else {
                            return ScrollOutcome::Continue;
                        }
                    }
                }
                ScrollOutcome::Continue
            },
            MouseEvent::Moved => {
                self.v_drag = false;
                self.h_drag = false;
                ScrollOutcome::Continue
            },
            MouseEvent::ScrollDown { column, row, alt } => {
                if self.area.contains(Position { x: column, y: row }) {
                    if !alt {
                        let step: usize = self.widget.vertical_scroll();
                        if self.scroll_down(step) {
                            ScrollOutcome::Changed
                        } else {
                            ScrollOutcome::Continue
                        }
                    } else {
                        let step: usize = self.widget.horizontal_scroll();
                        if self.scroll_right(step) {
                            ScrollOutcome::Changed
                        } else {
                            ScrollOutcome::Continue
                        }
                    }
                } else {
                    ScrollOutcome::Continue
                }
            },
            MouseEvent::ScrollUp { column, row, alt } => {
                if self.area.contains(Position { x: column, y: row }) {
                    if !alt {
                        let step: usize = self.widget.vertical_scroll();
                        if self.widget.scroll_up(step) {
                            ScrollOutcome::Changed
                        } else {
                            ScrollOutcome::Continue
                        }
                    } else {
                        let step: usize = self.widget.horizontal_scroll();
                        if self.widget.scroll_left(step) {
                            ScrollOutcome::Changed
                        } else {
                            ScrollOutcome::Continue
                        }
                    }
                } else {
                    ScrollOutcome::Continue
                }
            },
            MouseEvent::Other => ScrollOutcome::Continue,
        }
    }
}

/// Whether an event is offered to the content widget before the
/// chrome: the events that chrome and content compete for — a click or
/// a wheel turn — only inside the content's visible rectangle, and
/// everything else unconditionally.
pub open spec fn forwards_to_content_spec(view_area: Rect, e: MouseEvent) -> bool {
    match e {
        MouseEvent::Down { column, row } => view_area.contains_cell(column as int, row as int),
        MouseEvent::ScrollDown { column, row, alt } => view_area.contains_cell(
            column as int,
            row as int,
        ),
        MouseEvent::ScrollUp { column, row, alt } => view_area.contains_cell(
            column as int,
            row as int,
        ),
        _ => true,
    }
}

/// The content's first-refusal rule of [`forwards_to_content_spec`],
/// for the embedding's event loop: when this answers `true` the event
/// goes to the content's own handler first, and the chrome sees it
/// only if the content leaves it unconsumed.
pub fn forwards_to_content(view_area: Rect, event: &MouseEvent) -> (r: bool)
    ensures
        r == forwards_to_content_spec(view_area, *event),
{
    match *event {
        MouseEvent::Down { column, row } => view_area.contains(Position { x: column, y: row }),
        MouseEvent::ScrollDown { column, row, alt } => view_area.contains(
            Position { x: column, y: row },
        ),
        MouseEvent::ScrollUp { column, row, alt } => view_area.contains(
            Position { x: column, y: row },
        ),
        _ => true,
    }
}

} // verus!
