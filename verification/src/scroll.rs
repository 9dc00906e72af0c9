//! One scrollbar's state and behaviour.
//!
//! A [`ScrollState`] keeps the current offset, the largest offset at
//! which a full page can still be shown, the page length at the current
//! offset, an optional explicit wheel step and an optional overscroll
//! allowance. Every mutator pulls the stored offset back to
//! `max_offset + overscroll_by`; the arithmetic saturates instead of
//! wrapping. [`layout_scroll`] lays out up to two scrollbar tracks and
//! the remaining content rectangle without overlap.

use vstd::prelude::*;

use crate::buffer::{Cell, Surface};
use crate::event::{MouseEvent, ScrollOutcome};
use crate::layout::{Position, Rect, hit_to_offset, hit_to_offset_spec};

verus! {

/// Which side of the widget a scrollbar sits on, and with that, its axis.
#[derive(Clone, Copy, Debug, PartialEq, Eq, Structural)]
pub enum ScrollbarOrientation {
    VerticalRight,
    VerticalLeft,
    HorizontalBottom,
    HorizontalTop,
}

/// What to draw for a scrollbar whose content needs no scrolling.
#[derive(Clone, Copy, Debug, PartialEq, Eq, Structural)]
pub enum ScrollbarType {
    /// Always draw a recognizable scrollbar.
    Show,
    /// Fill the reserved area with a placeholder symbol.
    Minimal,
    /// Draw nothing; the reserved area stays as it is.
    NoRender,
}

/// Scrollbar configuration: policy, placement, margins and stepping.
///
/// This is not a widget by itself; a widget that supports scrolling
/// accepts one or two of these and uses them to lay out and render its
/// scrollbars. The glyphs and styles of the scrollbar proper are the
/// embedding's business; only the placeholder for a scrollbar with
/// nothing to scroll is part of the configuration here.
#[derive(Clone, Copy, Debug, PartialEq, Eq, Structural)]
pub struct Scroll {
    /// What to draw when there is nothing to scroll.
    pub policy: ScrollbarType,
    /// Side and axis of the scrollbar.
    pub orientation: ScrollbarOrientation,
    /// Cells reserved before the track.
    pub start_margin: u16,
    /// Cells reserved after the track.
    pub end_margin: u16,
    /// Allow scrolling this far past `max_offset`.
    pub overscroll_by: Option<usize>,
    /// Explicit wheel step; the page-derived default applies when `None`.
    pub scroll_by: Option<usize>,
    /// Placeholder symbol for the `Minimal` policy; an orientation-bound
    /// dotted line applies when `None`.
    pub no_symbol: Option<char>,
    /// Style token for the placeholder; the cell's style stays when `None`.
    pub no_style: Option<u16>,
}

/// One scrollbar's state.
///
/// The visible page is the pair `(offset, page_len)`. `max_offset`
/// bounds scrolling, not the content: the page length may differ from
/// offset to offset, so the content length is `max_offset + page_len`
/// only once the widget has rendered at `offset == max_offset`.
#[derive(Clone, Copy, Debug, PartialEq, Eq)]
pub struct ScrollState {
    /// Area of the scrollbar track, recomputed on every render.
    pub area: Rect,
    /// Side and axis of the scrollbar.
    pub orientation: ScrollbarOrientation,
    /// Current offset, in content-defined units.
    pub offset: usize,
    /// Largest offset at which a full page can still be shown.
    pub max_offset: usize,
    /// Content units visible at the current offset.
    pub page_len: usize,
    /// Explicit wheel step; the page-derived default applies when `None`.
    pub scroll_by: Option<usize>,
    /// Allow scrolling this far past `max_offset`.
    pub overscroll_by: Option<usize>,
    /// Whether a pointer drag on this track is in progress.
    pub drag: bool,
}

impl ScrollbarOrientation {
    pub open spec fn is_vertical_spec(self) -> bool {
        self == ScrollbarOrientation::VerticalRight || self == ScrollbarOrientation::VerticalLeft
    }

    /// Whether this orientation belongs to a vertical scrollbar.
    pub fn is_vertical(&self) -> (r: bool)
        ensures
            r == self.is_vertical_spec(),
    {
        match self {
            ScrollbarOrientation::VerticalRight => true,
            ScrollbarOrientation::VerticalLeft => true,
            ScrollbarOrientation::HorizontalBottom => false,
            ScrollbarOrientation::HorizontalTop => false,
        }
    }

    /// Whether this orientation belongs to a horizontal scrollbar.
    pub fn is_horizontal(&self) -> (r: bool)
        ensures
            r == !self.is_vertical_spec(),
    {
        match self {
            ScrollbarOrientation::VerticalRight => false,
            ScrollbarOrientation::VerticalLeft => false,
            ScrollbarOrientation::HorizontalBottom => true,
            ScrollbarOrientation::HorizontalTop => true,
        }
    }
}

impl Default for ScrollbarOrientation {
    /// A scrollbar sits at the right edge unless said otherwise.
    fn default() -> (r: ScrollbarOrientation)
        ensures
            r == ScrollbarOrientation::VerticalRight,
    {
        ScrollbarOrientation::VerticalRight
    }
}

impl Default for ScrollbarType {
    /// Nothing to scroll shows as a placeholder line unless said otherwise.
    fn default() -> (r: ScrollbarType)
        ensures
            r == ScrollbarType::Minimal,
    {
        ScrollbarType::Minimal
    }
}

impl Scroll {
    pub open spec fn default_spec() -> Scroll {
        Scroll {
            policy: ScrollbarType::Minimal,
            orientation: ScrollbarOrientation::VerticalRight,
            start_margin: 0,
            end_margin: 0,
            overscroll_by: None,
            scroll_by: None,
            no_symbol: None,
            no_style: None,
        }
    }

    pub fn new() -> (r: Scroll)
        ensures
            r == Scroll::default_spec(),
    {
        Scroll {
            policy: ScrollbarType::Minimal,
            orientation: ScrollbarOrientation::VerticalRight,
            start_margin: 0,
            end_margin: 0,
            overscroll_by: None,
            scroll_by: None,
            no_symbol: None,
            no_style: None,
        }
    }

    /// What to draw when there is nothing to scroll.
    pub fn scrollbar_type(self, policy: ScrollbarType) -> (r: Scroll)
        ensures
            r == (Scroll { policy, ..self }),
    {
        Scroll { policy, ..self }
    }

    /// Side and axis of the scrollbar.
    pub fn orientation(self, pos: ScrollbarOrientation) -> (r: Scroll)
        ensures
            r == (Scroll { orientation: pos, ..self }),
    {
        Scroll { orientation: pos, ..self }
    }

    /// Leave a margin before the track.
    pub fn start_margin(self, start_margin: u16) -> (r: Scroll)
        ensures
            r == (Scroll { start_margin, ..self }),
    {
        Scroll { start_margin, ..self }
    }

    /// Leave a margin after the track.
    pub fn end_margin(self, end_margin: u16) -> (r: Scroll)
        ensures
            r == (Scroll { end_margin, ..self }),
    {
        Scroll { end_margin, ..self }
    }

    /// Allow scrolling this far past `max_offset`.
    pub fn overscroll_by(self, overscroll: usize) -> (r: Scroll)
        ensures
            r == (Scroll { overscroll_by: Some(overscroll), ..self }),
    {
        Scroll { overscroll_by: Some(overscroll), ..self }
    }

    /// Explicit wheel step.
    pub fn scroll_by(self, scroll: usize) -> (r: Scroll)
        ensures
            r == (Scroll { scroll_by: Some(scroll), ..self }),
    {
        Scroll { scroll_by: Some(scroll), ..self }
    }

    /// Placeholder symbol for a scrollbar with nothing to scroll.
    pub fn no_symbol(self, no_symbol: Option<char>) -> (r: Scroll)
        ensures
            r == (Scroll { no_symbol, ..self }),
    {
        Scroll { no_symbol, ..self }
    }

    /// Style token for the placeholder.
    pub fn no_style(self, no_style: u16) -> (r: Scroll)
        ensures
            r == (Scroll { no_style: Some(no_style), ..self }),
    {
        Scroll { no_style: Some(no_style), ..self }
    }

    /// Forces a vertical orientation: one that already is vertical is
    /// kept, a horizontal one becomes vertical-right.
    pub fn override_vertical(self) -> (r: Scroll)
        ensures
            r == (Scroll {
                orientation: if self.orientation.is_vertical_spec() {
                    self.orientation
                } else {
                    ScrollbarOrientation::VerticalRight
                },
                ..self
            }),
    {
        let orientation = match self.orientation {
            ScrollbarOrientation::VerticalRight => ScrollbarOrientation::VerticalRight,
            ScrollbarOrientation::VerticalLeft => ScrollbarOrientation::VerticalLeft,
            ScrollbarOrientation::HorizontalBottom => ScrollbarOrientation::VerticalRight,
            ScrollbarOrientation::HorizontalTop => ScrollbarOrientation::VerticalRight,
        };
        Scroll { orientation, ..self }
    }

    /// Forces a horizontal orientation: one that already is horizontal
    /// is kept, a vertical one becomes horizontal-bottom.
    pub fn override_horizontal(self) -> (r: Scroll)
        ensures
            r == (Scroll {
                orientation: if !self.orientation.is_vertical_spec() {
                    self.orientation
                } else {
                    ScrollbarOrientation::HorizontalBottom
                },
                ..self
            }),
    {
        let orientation = match self.orientation {
            ScrollbarOrientation::VerticalRight => ScrollbarOrientation::HorizontalBottom,
            ScrollbarOrientation::VerticalLeft => ScrollbarOrientation::HorizontalBottom,
            ScrollbarOrientation::HorizontalBottom => ScrollbarOrientation::HorizontalBottom,
            ScrollbarOrientation::HorizontalTop => ScrollbarOrientation::HorizontalTop,
        };
        Scroll { orientation, ..self }
    }

    /// Whether this configuration describes a vertical scrollbar.
    pub fn is_vertical(&self) -> (r: bool)
        ensures
            r == self.orientation.is_vertical_spec(),
    {
        self.orientation.is_vertical()
    }

    /// Whether this configuration describes a horizontal scrollbar.
    pub fn is_horizontal(&self) -> (r: bool)
        ensures
            r == !self.orientation.is_vertical_spec(),
    {
        self.orientation.is_horizontal()
    }
}

impl Default for Scroll {
    fn default() -> (r: Scroll)
        ensures
            r == Scroll::default_spec(),
    {
        Scroll::new()
    }
}

impl Default for ScrollState {
    fn default() -> (r: ScrollState)
        ensures
            r == ScrollState::default_spec(),
    {
        ScrollState {
            area: Rect { x: 0, y: 0, width: 0, height: 0 },
            orientation: ScrollbarOrientation::VerticalRight,
            offset: 0,
            max_offset: 0,
            page_len: 0,
            scroll_by: None,
            overscroll_by: None,
            drag: false,
        }
    }
}

impl ScrollState {
    pub open spec fn default_spec() -> ScrollState {
        ScrollState {
            area: Rect { x: 0, y: 0, width: 0, height: 0 },
            orientation: ScrollbarOrientation::VerticalRight,
            offset: 0,
            max_offset: 0,
            page_len: 0,
            scroll_by: None,
            overscroll_by: None,
            drag: false,
        }
    }

    /// The overscroll allowance; `0` when unset.
    pub open spec fn overscroll_spec(&self) -> usize {
        match self.overscroll_by {
            Some(o) => o,
            None => 0,
        }
    }

    /// The largest offset every mutator allows:
    /// `max_offset + overscroll_by`, saturating.
    pub open spec fn offset_limit_spec(&self) -> usize {
        if self.max_offset + self.overscroll_spec() <= usize::MAX {
            (self.max_offset + self.overscroll_spec()) as usize
        } else {
            usize::MAX
        }
    }

    /// `offset` pulled back to the allowed range.
    pub open spec fn limit_spec(&self, offset: usize) -> usize {
        if offset <= self.offset_limit_spec() {
            offset
        } else {
            self.offset_limit_spec()
        }
    }

    /// The wheel step: the explicit one when set, floored at `1`, else
    /// a tenth of the page, floored at `1`.
    pub open spec fn scroll_by_spec(&self) -> usize {
        match self.scroll_by {
            Some(s) => if s >= 1 {
                s
            } else {
                1
            },
            None => if self.page_len / 10 >= 1 {
                self.page_len / 10
            } else {
                1
            },
        }
    }

    pub fn new() -> (r: ScrollState)
        ensures
            r == ScrollState::default_spec(),
    {
        Self::default()
    }

    pub fn set_orientation(&mut self, orientation: ScrollbarOrientation)
        ensures
            *final(self) == (ScrollState { orientation, ..*old(self) }),
    {
        self.orientation = orientation;
    }

    /// Whether this is a vertical scrollbar.
    pub fn is_vertical(&self) -> (r: bool)
        ensures
            r == self.orientation.is_vertical_spec(),
    {
        self.orientation.is_vertical()
    }

    /// Whether this is a horizontal scrollbar.
    pub fn is_horizontal(&self) -> (r: bool)
        ensures
            r == !self.orientation.is_vertical_spec(),
    {
        self.orientation.is_horizontal()
    }

    /// Current offset.
    pub fn offset(&self) -> (r: usize)
        ensures
            r == self.offset,
    {
        self.offset
    }

    /// Changes the offset, pulled back to `max_offset + overscroll_by`;
    /// reports whether the stored offset changed.
    ///
    /// Overscroll can make the stored offset an invalid offset for the
    /// widget; the widget must tolerate that.
    pub fn set_offset(&mut self, offset: usize) -> (r: bool)
        ensures
            *final(self) == (ScrollState {
                offset: old(self).limit_spec(offset),
                ..*old(self)
            }),
            r == (final(self).offset != old(self).offset),
    {
        let old_offset: usize = self.offset;
        self.offset = self.limit_offset(offset);
        old_offset != self.offset
    }

    /// The state after asking to make `pos` visible: the offset moves
    /// just enough, and not at all when `pos` is already on the page.
    pub open spec fn scroll_to_pos_spec(self, pos: usize) -> ScrollState {
        if pos >= self.offset + self.page_len {
            ScrollState { offset: (pos - self.page_len + 1) as usize, ..self }
        } else if pos < self.offset {
            ScrollState { offset: pos, ..self }
        } else {
            self
        }
    }

    /// Scrolls just enough to make `pos` visible; does nothing when it
    /// already is. Reports whether the offset changed.
    pub fn scroll_to_pos(&mut self, pos: usize) -> (r: bool)
        requires
            old(self).offset + old(self).page_len <= usize::MAX,
            !(old(self).page_len == 0 && pos == usize::MAX),
        ensures
            *final(self) == old(self).scroll_to_pos_spec(pos),
            r == (final(self).offset != old(self).offset),
    {
        let old_offset: usize = self.offset;
        if pos >= self.offset + self.page_len {
            self.offset = pos - self.page_len + 1;
        } else if pos < self.offset {
            self.offset = pos;
        }
        old_offset != self.offset
    }

    /// Scrolls up by `n`, saturating at `0`; reports a change.
    pub fn scroll_up(&mut self, n: usize) -> (r: bool)
        ensures
            *final(self) == (ScrollState {
                offset: old(self).limit_spec(
                    if n <= old(self).offset {
                        (old(self).offset - n) as usize
                    } else {
                        0
                    },
                ),
                ..*old(self)
            }),
            r == (final(self).offset != old(self).offset),
    {
        let old_offset: usize = self.offset;
        let target: usize = self.offset.saturating_sub(n);
        self.offset = self.limit_offset(target);
        old_offset != self.offset
    }

    /// Scrolls down by `n`, limited to `max_offset + overscroll_by`;
    /// reports a change.
    pub fn scroll_down(&mut self, n: usize) -> (r: bool)
        ensures
            *final(self) == (ScrollState {
                offset: old(self).limit_spec(
                    if old(self).offset + n <= usize::MAX {
                        (old(self).offset + n) as usize
                    } else {
                        usize::MAX
                    },
                ),
                ..*old(self)
            }),
            r == (final(self).offset != old(self).offset),
    {
        let old_offset: usize = self.offset;
        let target: usize = self.offset.saturating_add(n);
        self.offset = self.limit_offset(target);
        old_offset != self.offset
    }

    /// Scrolls left by `n`; the same arithmetic as scrolling up.
    pub fn scroll_left(&mut self, n: usize) -> (r: bool)
        ensures
            *final(self) == (ScrollState {
                offset: old(self).limit_spec(
                    if n <= old(self).offset {
                        (old(self).offset - n) as usize
                    } else {
                        0
                    },
                ),
                ..*old(self)
            }),
            r == (final(self).offset != old(self).offset),
    {
        self.scroll_up(n)
    }

    /// Scrolls right by `n`; the same arithmetic as scrolling down.
    pub fn scroll_right(&mut self, n: usize) -> (r: bool)
        ensures
            *final(self) == (ScrollState {
                offset: old(self).limit_spec(
                    if old(self).offset + n <= usize::MAX {
                        (old(self).offset + n) as usize
                    } else {
                        usize::MAX
                    },
                ),
                ..*old(self)
            }),
            r == (final(self).offset != old(self).offset),
    {
        self.scroll_down(n)
    }

    /// `offset` pulled back to `max_offset + overscroll_by`. The result
    /// never exceeds that sum, and a second application changes nothing.
    pub fn limit_offset(&self, offset: usize) -> (r: usize)
        ensures
            r == self.limit_spec(offset),
            r <= self.max_offset + self.overscroll_spec(),
            self.limit_spec(r) == r,
    {
        let lim: usize = self.max_offset.saturating_add(self.overscroll_by());
        if offset < lim {
            offset
        } else {
            lim
        }
    }

    /// Like [`Self::limit_offset`], for a signed offset: negative
    /// values clamp to `0`.
    pub fn clamp_offset(&self, offset: isize) -> (r: usize)
        ensures
            r == (if offset < 0 {
                0
            } else if offset as int <= self.offset_limit_spec() {
                offset as int
            } else {
                self.offset_limit_spec() as int
            }),
    {
        let lim: usize = self.max_offset.saturating_add(self.overscroll_by());
        if offset < 0 {
            0
        } else if (offset as usize) <= lim {
            offset as usize
        } else {
            lim
        }
    }

    /// Largest offset reachable by scrolling (overscroll aside).
    pub fn max_offset(&self) -> (r: usize)
        ensures
            r == self.max_offset,
    {
        self.max_offset
    }

    /// Sets the largest offset reachable by scrolling.
    pub fn set_max_offset(&mut self, max: usize)
        ensures
            *final(self) == (ScrollState { max_offset: max, ..*old(self) }),
    {
        self.max_offset = max;
    }

    /// Page length at the current offset.
    pub fn page_len(&self) -> (r: usize)
        ensures
            r == self.page_len,
    {
        self.page_len
    }

    /// Sets the page length at the current offset.
    pub fn set_page_len(&mut self, page: usize)
        ensures
            *final(self) == (ScrollState { page_len: page, ..*old(self) }),
    {
        self.page_len = page;
    }

    /// Suggested scroll amount per wheel event: the explicit step when
    /// set, else a tenth of the page; never `0`.
    pub fn scroll_by(&self) -> (r: usize)
        ensures
            r == self.scroll_by_spec(),
            r >= 1,
    {
        match self.scroll_by {
            Some(scroll) => if scroll >= 1 {
                scroll
            } else {
                1
            },
            None => {
                let step: usize = self.page_len / 10;
                if step >= 1 {
                    step
                } else {
                    1
                }
            },
        }
    }

    /// Sets or clears the explicit wheel step.
    pub fn set_scroll_by(&mut self, scroll: Option<usize>)
        ensures
            *final(self) == (ScrollState { scroll_by: scroll, ..*old(self) }),
    {
        self.scroll_by = scroll;
    }

    /// The overscroll allowance; `0` when unset.
    pub fn overscroll_by(&self) -> (r: usize)
        ensures
            r == self.overscroll_spec(),
    {
        match self.overscroll_by {
            Some(o) => o,
            None => 0,
        }
    }

    /// Sets or clears the overscroll allowance.
    pub fn set_overscroll_by(&mut self, overscroll_by: Option<usize>)
        ensures
            *final(self) == (ScrollState { overscroll_by, ..*old(self) }),
    {
        self.overscroll_by = overscroll_by;
    }

    /// The state after `n` items entered at `pos`: the offset shifts
    /// along when the insertion is at or above it, and the reachable
    /// range always grows.
    pub open spec fn items_added_spec(self, pos: usize, n: usize) -> ScrollState {
        ScrollState {
            offset: if self.offset >= pos {
                (self.offset + n) as usize
            } else {
                self.offset
            },
            max_offset: (self.max_offset + n) as usize,
            ..self
        }
    }

    /// Adjusts the state to `n` items inserted at `pos`, so that the
    /// content below the insertion point does not jump visually.
    pub fn items_added(&mut self, pos: usize, n: usize)
        requires
            old(self).max_offset + n <= usize::MAX,
            old(self).offset >= pos ==> old(self).offset + n <= usize::MAX,
        ensures
            *final(self) == old(self).items_added_spec(pos, n),
    {
        if self.offset >= pos {
            self.offset = self.offset + n;
        }
        self.max_offset = self.max_offset + n;
    }

    /// The state after `n` items left at `pos`: the mirror of
    /// [`Self::items_added_spec`], saturating at `0`.
    pub open spec fn items_removed_spec(self, pos: usize, n: usize) -> ScrollState {
        ScrollState {
            offset: if self.offset >= pos {
                if n <= self.offset {
                    (self.offset - n) as usize
                } else {
                    0
                }
            } else {
                self.offset
            },
            max_offset: if n <= self.max_offset {
                (self.max_offset - n) as usize
            } else {
                0
            },
            ..self
        }
    }

    /// Adjusts the state to `n` items removed at `pos`.
    pub fn items_removed(&mut self, pos: usize, n: usize)
        ensures
            *final(self) == old(self).items_removed_spec(pos, n),
    {
        if self.offset >= pos {
            self.offset = self.offset.saturating_sub(n);
        }
        self.max_offset = self.max_offset.saturating_sub(n);
    }

    /// Maps a pointer position on this scrollbar's track to an offset;
    /// `pos` is the clicked row or column, `base` and `length` the
    /// track's start and extent.
    pub fn map_position_index(&self, pos: u16, base: u16, length: u16) -> (r: usize)
        ensures
            r == hit_to_offset_spec(pos, base, length, self.max_offset),
    {
        hit_to_offset(pos, base, length, self.max_offset)
    }
}

/// How an event changes a scrollbar's state: pointer-down inside the
/// track starts a drag, pointer movement without a button ends every
/// drag, and nothing else is touched.
pub open spec fn handle_state_spec(s: ScrollState, e: MouseEvent) -> ScrollState {
    match e {
        MouseEvent::Down { column, row } => if s.area.contains_cell(column as int, row as int) {
            ScrollState { drag: true, ..s }
        } else {
            s
        },
        MouseEvent::Moved => ScrollState { drag: false, ..s },
        _ => s,
    }
}

/// What a scrollbar answers to an event.
///
/// Pointer-down inside the track, and pointer-drag while a drag is in
/// progress, map the position to an offset request for the bar's axis.
/// A wheel event inside the track asks for one step along the bar's
/// axis; the modifier reinterprets the wheel as horizontal. Everything
/// else passes through.
pub open spec fn handle_outcome_spec<R>(s: ScrollState, e: MouseEvent) -> ScrollOutcome<R> {
    match e {
        MouseEvent::Down { column, row } => if s.area.contains_cell(column as int, row as int) {
            if s.orientation.is_vertical_spec() {
                ScrollOutcome::VPos(
                    hit_to_offset_spec(row, s.area.y, s.area.height, s.max_offset) as usize,
                )
            } else {
                ScrollOutcome::HPos(
                    hit_to_offset_spec(column, s.area.x, s.area.width, s.max_offset) as usize,
                )
            }
        } else {
            ScrollOutcome::Continue
        },
        MouseEvent::Drag { column, row } => if s.drag {
            if s.orientation.is_vertical_spec() {
                if row >= s.area.y {
                    ScrollOutcome::VPos(
                        hit_to_offset_spec(row, s.area.y, s.area.height, s.max_offset) as usize,
                    )
                } else {
                    ScrollOutcome::Unchanged
                }
            } else {
                if column >= s.area.x {
                    ScrollOutcome::HPos(
                        hit_to_offset_spec(column, s.area.x, s.area.width, s.max_offset) as usize,
                    )
                } else {
                    ScrollOutcome::Unchanged
                }
            }
        } else {
            ScrollOutcome::Continue
        },
        MouseEvent::ScrollDown { column, row, alt } => if !alt && s.orientation.is_vertical_spec()
            && s.area.contains_cell(column as int, row as int) {
            ScrollOutcome::Down(s.scroll_by_spec())
        } else if alt && !s.orientation.is_vertical_spec() && s.area.contains_cell(
            column as int,
            row as int,
        ) {
            ScrollOutcome::Right(s.scroll_by_spec())
        } else {
            ScrollOutcome::Continue
        },
        MouseEvent::ScrollUp { column, row, alt } => if !alt && s.orientation.is_vertical_spec()
            && s.area.contains_cell(column as int, row as int) {
            ScrollOutcome::Up(s.scroll_by_spec())
        } else if alt && !s.orientation.is_vertical_spec() && s.area.contains_cell(
            column as int,
            row as int,
        ) {
            ScrollOutcome::Left(s.scroll_by_spec())
        } else {
            ScrollOutcome::Continue
        },
        _ => ScrollOutcome::Continue,
    }
}

/// What a scrollbar answers when it also watches the wheel over the
/// whole widget area `area`: a wheel event there asks for one step
/// along the bar's axis even outside the track; everything else falls
/// through to [`handle_outcome_spec`]. `vertical` selects which wheel
/// (plain or with the modifier) the bar listens to.
pub open spec fn handle_area_outcome_spec<R>(
    s: ScrollState,
    area: Rect,
    vertical: bool,
    e: MouseEvent,
) -> ScrollOutcome<R> {
    match e {
        MouseEvent::ScrollDown { column, row, alt } => if alt != vertical && area.contains_cell(
            column as int,
            row as int,
        ) {
            if vertical {
                ScrollOutcome::Down(s.scroll_by_spec())
            } else {
                ScrollOutcome::Right(s.scroll_by_spec())
            }
        } else {
            handle_outcome_spec(s, e)
        },
        MouseEvent::ScrollUp { column, row, alt } => if alt != vertical && area.contains_cell(
            column as int,
            row as int,
        ) {
            if vertical {
                ScrollOutcome::Up(s.scroll_by_spec())
            } else {
                ScrollOutcome::Left(s.scroll_by_spec())
            }
        } else {
            handle_outcome_spec(s, e)
        },
        _ => handle_outcome_spec(s, e),
    }
}

impl ScrollState {
    /// Answers a pointer or wheel event against this scrollbar's track.
    pub fn handle<R>(&mut self, event: &MouseEvent) -> (r: ScrollOutcome<R>)
        ensures
            *final(self) == handle_state_spec(*old(self), *event),
            r == handle_outcome_spec::<R>(*old(self), *event),
    {
        match *event {
            MouseEvent::Down { column, row } => {
                if self.area.contains(Position { x: column, y: row }) {
                    self.drag = true;
                    if self.is_vertical() {
                        ScrollOutcome::VPos(
                            self.map_position_index(row, self.area.y, self.area.height),
                        )
                    } else {
                        ScrollOutcome::HPos(
                            self.map_position_index(column, self.area.x, self.area.width),
                        )
                    }
                } else {
                    ScrollOutcome::Continue
                }
            },
            MouseEvent::Drag { column, row } => {
                if self.drag {
                    if self.is_vertical() {
                        if row >= self.area.y {
                            ScrollOutcome::VPos(
                                self.map_position_index(row, self.area.y, self.area.height),
                            )
                        } else {
                            ScrollOutcome::Unchanged
                        }
                    } else {
                        if column >= self.area.x {
                            ScrollOutcome::HPos(
                                self.map_position_index(column, self.area.x, self.area.width),
                            )
                        } else {
                            ScrollOutcome::Unchanged
                        }
                    }
                } else {
                    ScrollOutcome::Continue
                }
            },
            MouseEvent::Moved => {
                self.drag = false;
                ScrollOutcome::Continue
            },
            MouseEvent::ScrollDown { column, row, alt } => {
                if !alt && self.is_vertical() && self.area.contains(
                    Position { x: column, y: row },
                ) {
                    ScrollOutcome::Down(self.scroll_by())
                } else if alt && self.is_horizontal() && self.area.contains(
                    Position { x: column, y: row },
                ) {
                    ScrollOutcome::Right(self.scroll_by())
                } else {
                    ScrollOutcome::Continue
                }
            },
            MouseEvent::ScrollUp { column, row, alt } => {
                if !alt && self.is_vertical() && self.area.contains(
                    Position { x: column, y: row },
                ) {
                    ScrollOutcome::Up(self.scroll_by())
                } else if alt && self.is_horizontal() && self.area.contains(
                    Position { x: column, y: row },
                ) {
                    ScrollOutcome::Left(self.scroll_by())
                } else {
                    ScrollOutcome::Continue
                }
            },
            MouseEvent::Other => ScrollOutcome::Continue,
        }
    }

    /// Answers an event for a scrollbar that also watches the wheel
    /// over the whole widget area `area`; `vertical` says which wheel
    /// this bar listens to there.
    pub fn handle_in_area<R>(&mut self, area: Rect, vertical: bool, event: &MouseEvent) -> (r:
        ScrollOutcome<R>)
        ensures
            r == handle_area_outcome_spec::<R>(*old(self), area, vertical, *event),
            *final(self) == (match *event {
                MouseEvent::ScrollDown { column, row, alt } | MouseEvent::ScrollUp {
                    column,
                    row,
                    alt,
                } => if alt != vertical && area.contains_cell(column as int, row as int) {
                    *old(self)
                } else {
                    handle_state_spec(*old(self), *event)
                },
                _ => handle_state_spec(*old(self), *event),
            }),
    {
        match *event {
            MouseEvent::ScrollDown { column, row, alt } => {
                if alt != vertical && area.contains(Position { x: column, y: row }) {
                    if vertical {
                        ScrollOutcome::Down(self.scroll_by())
                    } else {
                        ScrollOutcome::Right(self.scroll_by())
                    }
                } else {
                    self.handle(event)
                }
            },
            MouseEvent::ScrollUp { column, row, alt } => {
                if alt != vertical && area.contains(Position { x: column, y: row }) {
                    if vertical {
                        ScrollOutcome::Up(self.scroll_by())
                    } else {
                        ScrollOutcome::Left(self.scroll_by())
                    }
                } else {
                    self.handle(event)
                }
            },
            _ => self.handle(event),
        }
    }
}

/// What the embedding must paint for a scrollbar after a render pass.
///
/// Drawing the glyphs of a live scrollbar is the render target's
/// business; this value carries everything it needs.
#[derive(Clone, Copy, Debug, PartialEq, Eq, Structural)]
pub enum ScrollbarRender {
    /// Draw a scrollbar: thumb at `offset`, thumb size `page_len`,
    /// track range `max_offset`.
    Bar { area: Rect, orientation: ScrollbarOrientation, max_offset: usize, offset: usize, page_len: usize },
    /// Nothing to scroll: only restyle the track area.
    TrackOnly { area: Rect, orientation: ScrollbarOrientation },
}

/// The placeholder symbol for a scrollbar with nothing to scroll: the
/// configured one, or a dotted line matching the orientation.
pub open spec fn no_symbol_spec(scroll: Scroll) -> char {
    match scroll.no_symbol {
        Some(c) => c,
        None => if scroll.orientation.is_vertical_spec() {
            '\u{250A}'
        } else {
            '\u{2508}'
        },
    }
}

/// What a cell of the track area becomes under the placeholder fill:
/// the placeholder symbol, and the configured style if there is one.
pub open spec fn no_scroll_cell_spec(scroll: Scroll, was: Cell) -> Cell {
    Cell {
        symbol: no_symbol_spec(scroll),
        style: match scroll.no_style {
            Some(st) => st,
            None => was.style,
        },
    }
}

/// The state updates a render pass applies before drawing: the
/// configuration's orientation and, where set, its overscroll and step
/// replace the state's, and the track area is remembered.
pub open spec fn render_scroll_state_spec(scroll: Scroll, area: Rect, s: ScrollState) -> ScrollState {
    ScrollState {
        orientation: scroll.orientation,
        overscroll_by: match scroll.overscroll_by {
            Some(o) => Some(o),
            None => s.overscroll_by,
        },
        scroll_by: match scroll.scroll_by {
            Some(sb) => Some(sb),
            None => s.scroll_by,
        },
        area,
        ..s
    }
}

/// Whether a render pass fills the track area with the placeholder:
/// only under the `Minimal` policy, and only when there is nothing to
/// scroll.
pub open spec fn render_scroll_fills_spec(scroll: Scroll, s: ScrollState) -> bool {
    s.max_offset == 0 && scroll.policy == ScrollbarType::Minimal
}

/// What a render pass asks the embedding to paint: a scrollbar whenever
/// there is something to scroll (or always, under the `Show` policy)
/// and the track area is not empty; nothing otherwise.
pub open spec fn render_scroll_plan_spec(scroll: Scroll, area: Rect, s: ScrollState) -> Option<
    ScrollbarRender,
> {
    if (s.max_offset > 0 || scroll.policy == ScrollbarType::Show) && !area.is_empty_spec() {
        Some(
            ScrollbarRender::Bar {
                area,
                orientation: scroll.orientation,
                max_offset: s.max_offset,
                offset: s.offset,
                page_len: s.page_len,
            },
        )
    } else {
        None
    }
}

/// Fills `area` of `buf` with the placeholder for a scrollbar that has
/// nothing to scroll.
fn fill_no_scroll(scroll: &Scroll, area: Rect, buf: &mut Surface)
    requires
        old(buf).wf(),
        area.wf(),
        area.contained_in(old(buf).area),
    ensures
        final(buf).wf(),
        final(buf).area == old(buf).area,
        forall|x: int, y: int| #![trigger area.contains_cell(x, y)]
            area.contains_cell(x, y) ==> final(buf).cell_at(x, y) == no_scroll_cell_spec(
                *scroll,
                old(buf).cell_at(x, y),
            ),
        forall|x: int, y: int| #![trigger old(buf).area.contains_cell(x, y)]
            old(buf).area.contains_cell(x, y) && !area.contains_cell(x, y)
                ==> final(buf).cell_at(x, y) == old(buf).cell_at(x, y),
{
    let sym: char = match scroll.no_symbol {
        Some(c) => c,
        None => {
            if scroll.orientation.is_vertical() {
                '\u{250A}'
            } else {
                '\u{2508}'
            }
        },
    };
    let mut dy: u16 = 0;
    while dy < area.height
        invariant
            buf.wf(),
            buf.area == old(buf).area,
            area.wf(),
            area.contained_in(buf.area),
            dy <= area.height,
            sym == no_symbol_spec(*scroll),
            forall|x: int, y: int| #![trigger area.contains_cell(x, y)]
                area.contains_cell(x, y) && y < area.y + dy ==> buf.cell_at(x, y)
                    == no_scroll_cell_spec(*scroll, old(buf).cell_at(x, y)),
            forall|x: int, y: int| #![trigger buf.area.contains_cell(x, y)]
                buf.area.contains_cell(x, y) && !(area.contains_cell(x, y) && y < area.y + dy)
                    ==> buf.cell_at(x, y) == old(buf).cell_at(x, y),
        decreases area.height - dy,
    {
        let ty: u16 = area.y + dy;
        let mut dx: u16 = 0;
        while dx < area.width
            invariant
                buf.wf(),
                buf.area == old(buf).area,
                area.wf(),
                area.contained_in(buf.area),
                dy < area.height,
                ty == area.y + dy,
                dx <= area.width,
                sym == no_symbol_spec(*scroll),
                forall|x: int, y: int| #![trigger area.contains_cell(x, y)]
                    area.contains_cell(x, y) && (y < area.y + dy || (y == area.y + dy && x < area.x
                        + dx)) ==> buf.cell_at(x, y) == no_scroll_cell_spec(
                        *scroll,
                        old(buf).cell_at(x, y),
                    ),
                forall|x: int, y: int| #![trigger buf.area.contains_cell(x, y)]
                    buf.area.contains_cell(x, y) && !(area.contains_cell(x, y) && (y < area.y + dy
                        || (y == area.y + dy && x < area.x + dx))) ==> buf.cell_at(x, y) == old(
                        buf,
                    ).cell_at(x, y),
            decreases area.width - dx,
        {
            let tx: u16 = area.x + dx;
            let ghost prev = *buf;
            let was: Cell = buf.get(tx, ty);
            let style: u16 = match scroll.no_style {
                Some(st) => st,
                None => was.style,
            };
            buf.set(tx, ty, Cell { symbol: sym, style });
            proof {
                assert forall|x: int, y: int|
                    buf.area.contains_cell(x, y) && !(area.contains_cell(x, y) && (y < area.y + dy
                        || (y == area.y + dy && x < area.x + dx + 1))) implies buf.cell_at(x, y)
                        == old(buf).cell_at(x, y) by {
                    assert(!(x == tx && y == ty));
                    assert(prev.cell_at(x, y) == old(buf).cell_at(x, y));
                    assert(buf.cell_at(x, y) == prev.cell_at(x, y));
                }
                assert forall|x: int, y: int|
                    area.contains_cell(x, y) && (y < area.y + dy || (y == area.y + dy && x < area.x
                        + dx + 1)) implies buf.cell_at(x, y) == no_scroll_cell_spec(
                        *scroll,
                        old(buf).cell_at(x, y),
                    ) by {
                    if !(x == tx && y == ty) {
                        assert(buf.cell_at(x, y) == prev.cell_at(x, y));
                    } else {
                        assert(was == old(buf).cell_at(x, y));
                    }
                }
            }
            dx = dx + 1;
        }
        dy = dy + 1;
    }
}

/// One render pass for a single scrollbar.
///
/// Applies the configuration to the state and remembers the track
/// `area`. When there is something to scroll — or the `Show` policy
/// forces it — the returned plan asks the embedding to draw a
/// scrollbar. When there is nothing to scroll, the `Minimal` policy
/// fills the track with the placeholder symbol, and `NoRender` leaves
/// the area alone.
pub fn render_scroll(scroll: &Scroll, area: Rect, buf: &mut Surface, state: &mut ScrollState) -> (plan:
    Option<ScrollbarRender>)
    requires
        old(buf).wf(),
        area.wf(),
        area.contained_in(old(buf).area),
    ensures
        *final(state) == render_scroll_state_spec(*scroll, area, *old(state)),
        plan == render_scroll_plan_spec(*scroll, area, *final(state)),
        final(buf).wf(),
        final(buf).area == old(buf).area,
        render_scroll_fills_spec(*scroll, *final(state)) ==> forall|x: int, y: int|
            #![trigger area.contains_cell(x, y)]
            area.contains_cell(x, y) ==> final(buf).cell_at(x, y) == no_scroll_cell_spec(
                *scroll,
                old(buf).cell_at(x, y),
            ),
        forall|x: int, y: int| #![trigger old(buf).area.contains_cell(x, y)]
            old(buf).area.contains_cell(x, y) && !(render_scroll_fills_spec(*scroll, *final(state))
                && area.contains_cell(x, y)) ==> final(buf).cell_at(x, y) == old(buf).cell_at(
                x,
                y,
            ),
{
    apply_config(scroll, area, state);

    if state.max_offset() == 0 {
        match scroll.policy {
            ScrollbarType::Show => {
                if !area.is_empty() {
                    Some(
                        ScrollbarRender::Bar {
                            area,
                            orientation: scroll.orientation,
                            max_offset: state.max_offset,
                            offset: state.offset,
                            page_len: state.page_len,
                        },
                    )
                } else {
                    None
                }
            },
            ScrollbarType::Minimal => {
                fill_no_scroll(scroll, area, buf);
                None
            },
            ScrollbarType::NoRender => None,
        }
    } else {
        if !area.is_empty() {
            Some(
                ScrollbarRender::Bar {
                    area,
                    orientation: scroll.orientation,
                    max_offset: state.max_offset,
                    offset: state.offset,
                    page_len: state.page_len,
                },
            )
        } else {
            None
        }
    }
}

/// The state updates of a render pass, shared by [`render_scroll`].
fn apply_config(scroll: &Scroll, area: Rect, state: &mut ScrollState)
    ensures
        *final(state) == render_scroll_state_spec(*scroll, area, *old(state)),
{
    state.set_orientation(scroll.orientation);
    if scroll.overscroll_by.is_some() {
        state.set_overscroll_by(scroll.overscroll_by);
    }
    if scroll.scroll_by.is_some() {
        state.set_scroll_by(scroll.scroll_by);
    }
    state.area = area;
}

/// For every offset, the limited offset stays within
/// `max_offset + overscroll_by`, and limiting again changes nothing.
pub proof fn lemma_limit_offset_bound_and_idempotent(s: ScrollState, o: usize)
    ensures
        s.limit_spec(o) <= s.max_offset + s.overscroll_spec(),
        s.limit_spec(s.limit_spec(o)) == s.limit_spec(o),
{
}

/// Asking twice to make the same position visible moves the offset no
/// further than asking once, for any page that shows at least one unit.
pub proof fn lemma_scroll_to_pos_idempotent(s: ScrollState, pos: usize)
    requires
        s.page_len >= 1,
    ensures
        s.scroll_to_pos_spec(pos).scroll_to_pos_spec(pos) == s.scroll_to_pos_spec(pos),
{
}

/// Taking out again what was put in restores the state: inserting `n`
/// items at `at` and then removing `n` items at `at` gives back the
/// original offset and `max_offset`; an offset above the insertion
/// point rides along, one below it never moves.
pub proof fn lemma_items_added_removed_round_trip(s: ScrollState, at: usize, n: usize)
    requires
        s.max_offset + n <= usize::MAX,
        s.offset >= at ==> s.offset + n <= usize::MAX,
    ensures
        s.items_added_spec(at, n).items_removed_spec(at, n) == s,
        s.offset < at ==> s.items_added_spec(at, n).offset == s.offset,
{
}

/// The configurations behind optional references, as plain values.
pub open spec fn opt_scroll(o: Option<&Scroll>) -> Option<Scroll> {
    match o {
        Some(s) => Some(*s),
        None => None,
    }
}

/// Cells reserved at the left edge: one for a border or for a
/// vertical scrollbar sitting on the left.
pub open spec fn margin_left_spec(block: bool, v: Option<Scroll>) -> u16 {
    match v {
        Some(s) => if s.orientation == ScrollbarOrientation::VerticalLeft {
            1
        } else if block {
            1
        } else {
            0
        },
        None => if block {
            1
        } else {
            0
        },
    }
}

/// Cells reserved at the right edge.
pub open spec fn margin_right_spec(block: bool, v: Option<Scroll>) -> u16 {
    match v {
        Some(s) => if s.orientation == ScrollbarOrientation::VerticalRight {
            1
        } else if block {
            1
        } else {
            0
        },
        None => if block {
            1
        } else {
            0
        },
    }
}

/// Cells reserved at the top edge.
pub open spec fn margin_top_spec(block: bool, h: Option<Scroll>) -> u16 {
    match h {
        Some(s) => if s.orientation == ScrollbarOrientation::HorizontalTop {
            1
        } else if block {
            1
        } else {
            0
        },
        None => if block {
            1
        } else {
            0
        },
    }
}

/// Cells reserved at the bottom edge.
pub open spec fn margin_bottom_spec(block: bool, h: Option<Scroll>) -> u16 {
    match h {
        Some(s) => if s.orientation == ScrollbarOrientation::HorizontalBottom {
            1
        } else if block {
            1
        } else {
            0
        },
        None => if block {
            1
        } else {
            0
        },
    }
}

/// `a - b`, not below `0`.
pub open spec fn sub_floor0(a: int, b: int) -> u16 {
    if a - b >= 0 {
        (a - b) as u16
    } else {
        0
    }
}

/// The horizontal track of [`layout_scroll`]: pinned to the top or
/// bottom row, spanning the width left over after the side margins and
/// the track's own start and end margins.
pub open spec fn h_area_spec(area: Rect, block: bool, h: Option<Scroll>, v: Option<Scroll>) -> Rect {
    match h {
        None => Rect { x: area.x, y: area.y, width: 0, height: 0 },
        Some(hs) => {
            let ml = margin_left_spec(block, v);
            let mr = margin_right_spec(block, v);
            Rect {
                x: (area.x + ml + hs.start_margin) as u16,
                y: if hs.orientation == ScrollbarOrientation::HorizontalTop {
                    area.y
                } else {
                    (area.y + sub_floor0(area.height as int, 1)) as u16
                },
                width: sub_floor0(
                    area.width as int,
                    ml + mr + hs.start_margin + hs.end_margin,
                ),
                height: if area.height > 0 {
                    1
                } else {
                    0
                },
            }
        },
    }
}

/// The vertical track of [`layout_scroll`]: pinned to the left or right
/// column, spanning the height left over after the top and bottom
/// margins and the track's own start and end margins.
pub open spec fn v_area_spec(area: Rect, block: bool, h: Option<Scroll>, v: Option<Scroll>) -> Rect {
    match v {
        None => Rect { x: area.x, y: area.y, width: 0, height: 0 },
        Some(vs) => {
            let mt = margin_top_spec(block, h);
            let mb = margin_bottom_spec(block, h);
            Rect {
                x: if vs.orientation == ScrollbarOrientation::VerticalLeft {
                    area.x
                } else {
                    (area.x + sub_floor0(area.width as int, 1)) as u16
                },
                y: (area.y + mt + vs.start_margin) as u16,
                width: if area.width > 0 {
                    1
                } else {
                    0
                },
                height: sub_floor0(
                    area.height as int,
                    mt + mb + vs.start_margin + vs.end_margin,
                ),
            }
        },
    }
}

/// The content rectangle of [`layout_scroll`]: the outer area shrunk by
/// the four margins.
pub open spec fn inner_area_spec(
    area: Rect,
    block: bool,
    h: Option<Scroll>,
    v: Option<Scroll>,
) -> Rect {
    let ml = margin_left_spec(block, v);
    let mr = margin_right_spec(block, v);
    let mt = margin_top_spec(block, h);
    let mb = margin_bottom_spec(block, h);
    Rect {
        x: (area.x + ml) as u16,
        y: (area.y + mt) as u16,
        width: sub_floor0(area.width as int, ml + mr),
        height: sub_floor0(area.height as int, mt + mb),
    }
}

/// Lays out up to two scrollbar tracks and the content rectangle inside
/// `area`, so that tracks, border and content never overlap.
///
/// One cell of margin is reserved per side that carries a border
/// (`block`) or a scrollbar; each scrollbar's own start and end margins
/// shorten its track further. A horizontal configuration must carry a
/// horizontal orientation, a vertical one a vertical orientation.
///
/// Returns `(h_track, v_track, inner)`.
pub fn layout_scroll(
    area: Rect,
    block: bool,
    h_scroll: Option<&Scroll>,
    v_scroll: Option<&Scroll>,
) -> (r: (Rect, Rect, Rect))
    requires
        area.wf(),
        (match h_scroll {
            Some(hs) => !hs.orientation.is_vertical_spec() && area.x + 1 + hs.start_margin
                <= u16::MAX && hs.start_margin + hs.end_margin + 2 <= u16::MAX,
            None => true,
        }),
        (match v_scroll {
            Some(vs) => vs.orientation.is_vertical_spec() && area.y + 1 + vs.start_margin
                <= u16::MAX && vs.start_margin + vs.end_margin + 2 <= u16::MAX,
            None => true,
        }),
        block || h_scroll is Some || v_scroll is Some ==> area.x < u16::MAX && area.y < u16::MAX,
    ensures
        r.0 == h_area_spec(area, block, opt_scroll(h_scroll), opt_scroll(v_scroll)),
        r.1 == v_area_spec(area, block, opt_scroll(h_scroll), opt_scroll(v_scroll)),
        r.2 == inner_area_spec(area, block, opt_scroll(h_scroll), opt_scroll(v_scroll)),
        r.0.wf() && r.1.wf() && r.2.wf(),
{
    let mut margin_left: u16 = 0;
    let mut margin_right: u16 = 0;
    let mut margin_top: u16 = 0;
    let mut margin_bottom: u16 = 0;

    if block {
        margin_left = 1;
        margin_right = 1;
        margin_top = 1;
        margin_bottom = 1;
    }
    match v_scroll {
        Some(v) => match v.orientation {
            ScrollbarOrientation::VerticalLeft => { margin_left = 1; },
            ScrollbarOrientation::VerticalRight => { margin_right = 1; },
            _ => {},
        },
        None => {},
    }
    match h_scroll {
        Some(h) => match h.orientation {
            ScrollbarOrientation::HorizontalTop => { margin_top = 1; },
            ScrollbarOrientation::HorizontalBottom => { margin_bottom = 1; },
            _ => {},
        },
        None => {},
    }

    let h_area: Rect = match h_scroll {
        Some(h_scroll) => match h_scroll.orientation {
            ScrollbarOrientation::VerticalRight | ScrollbarOrientation::VerticalLeft => {
                proof {
                    assert(false);
                }
                Rect { x: 0, y: 0, width: 0, height: 0 }
            },
            ScrollbarOrientation::HorizontalBottom => Rect {
                x: area.x + margin_left + h_scroll.start_margin,
                y: area.y + area.height.saturating_sub(1),
                width: area.width.saturating_sub(
                    margin_left + margin_right + h_scroll.start_margin + h_scroll.end_margin,
                ),
                height: if area.height > 0 {
                    1
                } else {
                    0
                },
            },
            ScrollbarOrientation::HorizontalTop => Rect {
                x: area.x + margin_left + h_scroll.start_margin,
                y: area.y,
                width: area.width.saturating_sub(
                    margin_left + margin_right + h_scroll.start_margin + h_scroll.end_margin,
                ),
                height: if area.height > 0 {
                    1
                } else {
                    0
                },
            },
        },
        None => Rect { x: area.x, y: area.y, width: 0, height: 0 },
    };
    let v_area: Rect = match v_scroll {
        Some(v_scroll) => match v_scroll.orientation {
            ScrollbarOrientation::VerticalRight => Rect {
                x: area.x + area.width.saturating_sub(1),
                y: area.y + margin_top + v_scroll.start_margin,
                width: if area.width > 0 {
                    1
                } else {
                    0
                },
                height: area.height.saturating_sub(
                    margin_top + margin_bottom + v_scroll.start_margin + v_scroll.end_margin,
                ),
            },
            ScrollbarOrientation::VerticalLeft => Rect {
                x: area.x,
                y: area.y + margin_top + v_scroll.start_margin,
                width: if area.width > 0 {
                    1
                } else {
                    0
                },
                height: area.height.saturating_sub(
                    margin_top + margin_bottom + v_scroll.start_margin + v_scroll.end_margin,
                ),
            },
            ScrollbarOrientation::HorizontalBottom | ScrollbarOrientation::HorizontalTop => {
                proof {
                    assert(false);
                }
                Rect { x: 0, y: 0, width: 0, height: 0 }
            },
        },
        None => Rect { x: area.x, y: area.y, width: 0, height: 0 },
    };

    let inner: Rect = Rect {
        x: area.x + margin_left,
        y: area.y + margin_top,
        width: area.width.saturating_sub(margin_left + margin_right),
        height: area.height.saturating_sub(margin_top + margin_bottom),
    };

    (h_area, v_area, inner)
}

/// The tracks and the content rectangle of [`layout_scroll`] never
/// overlap, and all three lie inside the outer rectangle. With a border
/// active, the outer rectangle's four corner cells belong to none of
/// them: they are left to the border.
pub proof fn lemma_layout_scroll_disjoint(area: Rect, block: bool, h: Scroll, v: Scroll)
    requires
        area.wf(),
        !h.orientation.is_vertical_spec(),
        v.orientation.is_vertical_spec(),
        area.x + 1 + h.start_margin <= u16::MAX,
        h.start_margin + h.end_margin + 2 <= u16::MAX,
        area.y + 1 + v.start_margin <= u16::MAX,
        v.start_margin + v.end_margin + 2 <= u16::MAX,
        area.x < u16::MAX,
        area.y < u16::MAX,
    ensures
        h_area_spec(area, block, Some(h), Some(v)).disjoint(
            v_area_spec(area, block, Some(h), Some(v)),
        ),
        h_area_spec(area, block, Some(h), Some(v)).disjoint(
            inner_area_spec(area, block, Some(h), Some(v)),
        ),
        v_area_spec(area, block, Some(h), Some(v)).disjoint(
            inner_area_spec(area, block, Some(h), Some(v)),
        ),
        h_area_spec(area, block, Some(h), Some(v)).contained_in(area),
        v_area_spec(area, block, Some(h), Some(v)).contained_in(area),
        inner_area_spec(area, block, Some(h), Some(v)).contained_in(area),
        block ==> forall|cx: int, cy: int|
            (cx == area.x || cx == area.x + area.width - 1) && (cy == area.y || cy == area.y
                + area.height - 1) ==> !h_area_spec(area, block, Some(h), Some(v)).contains_cell(
                cx,
                cy,
            ) && !v_area_spec(area, block, Some(h), Some(v)).contains_cell(cx, cy)
                && !inner_area_spec(area, block, Some(h), Some(v)).contains_cell(cx, cy),
{
    let ha = h_area_spec(area, block, Some(h), Some(v));
    let va = v_area_spec(area, block, Some(h), Some(v));
    let ia = inner_area_spec(area, block, Some(h), Some(v));
    assert forall|x: int, y: int| !(ha.contains_cell(x, y) && va.contains_cell(x, y)) by {}
    assert forall|x: int, y: int| !(ha.contains_cell(x, y) && ia.contains_cell(x, y)) by {}
    assert forall|x: int, y: int| !(va.contains_cell(x, y) && ia.contains_cell(x, y)) by {}
    assert forall|x: int, y: int| ha.contains_cell(x, y) implies area.contains_cell(x, y) by {}
    assert forall|x: int, y: int| va.contains_cell(x, y) implies area.contains_cell(x, y) by {}
    assert forall|x: int, y: int| ia.contains_cell(x, y) implies area.contains_cell(x, y) by {}
}

} // verus!
