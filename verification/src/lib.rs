//! Scrolling support for character-grid user interfaces.
//!
//! The crate keeps, per axis, a scroll offset together with the largest
//! offset at which a full page can still be shown, lays out scrollbar
//! tracks so that they never overlap each other or the content, maps
//! pointer positions on a track back to content offsets, routes pointer
//! and wheel events between the scrollbar chrome and the wrapped content,
//! and scrolls widgets without native scrolling support by rendering them
//! into an oversized off-screen surface and copying a window of it.

pub mod buffer;
pub mod event;
pub mod layout;
pub mod scroll;
pub mod scrolled;
pub mod view;

use vstd::prelude::*;

use crate::buffer::Surface;
use crate::layout::Rect;

verus! {

/// Render capability of a content widget.
///
/// The widget draws itself into `area` of the given surface; it must
/// not resize the surface. What it draws is its own business.
pub trait InnerWidget<State> {
    fn render_inner(&self, area: Rect, buf: &mut Surface, state: &mut State)
        requires
            old(buf).wf(),
        ensures
            final(buf).wf(),
            final(buf).area == old(buf).area,
    ;
}

/// Extent-query capability of a content widget.
///
/// Given the area that would be available to the content, the widget
/// reports per axis whether it wants scrolling there, judged against
/// its own natural size.
pub trait ScrollingWidget<State> {
    /// What the query answers: `(needs_horizontal, needs_vertical)`.
    spec fn needs_spec(&self, area: Rect, state: State) -> (bool, bool);

    fn need_scroll(&self, area: Rect, state: &mut State) -> (r: (bool, bool))
        ensures
            r == self.needs_spec(area, *old(state)),
            *final(state) == *old(state),
    ;
}

/// Axis-state capability of a scrollable widget state.
///
/// Exposes, per axis, the current offset, the largest offset at which a
/// full page can still be shown, the page length at the current offset,
/// and a suggested step for wheel scrolling. Setters report whether the
/// stored offset changed; what a setter stores is the implementation's
/// own clamping rule, published through [`Self::with_v_offset`] and
/// [`Self::with_h_offset`].
pub trait ScrollingState: Sized {
    /// The current vertical offset.
    spec fn v_offset_spec(&self) -> usize;

    /// The current horizontal offset.
    spec fn h_offset_spec(&self) -> usize;

    /// The largest vertical offset reachable by scrolling.
    spec fn v_max_spec(&self) -> usize;

    /// The largest horizontal offset reachable by scrolling.
    spec fn h_max_spec(&self) -> usize;

    /// The vertical page length at the current offset.
    spec fn v_page_spec(&self) -> usize;

    /// The horizontal page length at the current offset.
    spec fn h_page_spec(&self) -> usize;

    /// The suggested vertical wheel step.
    spec fn v_step_spec(&self) -> usize;

    /// The suggested horizontal wheel step.
    spec fn h_step_spec(&self) -> usize;

    /// The state after asking for the given vertical offset.
    spec fn with_v_offset(self, offset: usize) -> Self;

    /// The state after asking for the given horizontal offset.
    spec fn with_h_offset(self, offset: usize) -> Self;

    fn vertical_offset(&self) -> (r: usize)
        ensures
            r == self.v_offset_spec(),
    ;

    fn horizontal_offset(&self) -> (r: usize)
        ensures
            r == self.h_offset_spec(),
    ;

    fn vertical_max_offset(&self) -> (r: usize)
        ensures
            r == self.v_max_spec(),
    ;

    fn horizontal_max_offset(&self) -> (r: usize)
        ensures
            r == self.h_max_spec(),
    ;

    fn vertical_page(&self) -> (r: usize)
        ensures
            r == self.v_page_spec(),
    ;

    fn horizontal_page(&self) -> (r: usize)
        ensures
            r == self.h_page_spec(),
    ;

    /// Suggested scroll amount per vertical wheel event; never `0`.
    fn vertical_scroll(&self) -> (r: usize)
        ensures
            r == self.v_step_spec(),
            r >= 1,
    ;

    /// Suggested scroll amount per horizontal wheel event; never `0`.
    fn horizontal_scroll(&self) -> (r: usize)
        ensures
            r == self.h_step_spec(),
            r >= 1,
    ;

    fn set_vertical_offset(&mut self, offset: usize) -> (r: bool)
        ensures
            *final(self) == old(self).with_v_offset(offset),
            r == (final(self).v_offset_spec() != old(self).v_offset_spec()),
    ;

    fn set_horizontal_offset(&mut self, offset: usize) -> (r: bool)
        ensures
            *final(self) == old(self).with_h_offset(offset),
            r == (final(self).h_offset_spec() != old(self).h_offset_spec()),
    ;

    /// Asks for an offset `n` below the current one, saturating at `0`.
    fn scroll_up(&mut self, n: usize) -> (r: bool)
        ensures
            *final(self) == old(self).with_v_offset(
                if n <= old(self).v_offset_spec() {
                    (old(self).v_offset_spec() - n) as usize
                } else {
                    0
                },
            ),
            r == (final(self).v_offset_spec() != old(self).v_offset_spec()),
    {
        let offset: usize = self.vertical_offset().saturating_sub(n);
        self.set_vertical_offset(offset)
    }

    /// Asks for an offset `n` left of the current one, saturating at `0`.
    fn scroll_left(&mut self, n: usize) -> (r: bool)
        ensures
            *final(self) == old(self).with_h_offset(
                if n <= old(self).h_offset_spec() {
                    (old(self).h_offset_spec() - n) as usize
                } else {
                    0
                },
            ),
            r == (final(self).h_offset_spec() != old(self).h_offset_spec()),
    {
        let offset: usize = self.horizontal_offset().saturating_sub(n);
        self.set_horizontal_offset(offset)
    }
}

} // verus!
