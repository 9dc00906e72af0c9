//! Events consumed and outcomes produced by the scrolling machinery.
//!
//! Raw input decoding is not this crate's business: events arrive
//! already decoded as [`MouseEvent`] values, with cell coordinates.
//! Handlers answer with a [`ScrollOutcome`], which either leaves the
//! event alone, reports a change, carries a concrete offset request,
//! or wraps the result of the content widget's own handler.

use vstd::prelude::*;

verus! {

/// An already-decoded pointer or wheel event.
///
/// Only the left pointer button takes part in scrolling. Wheel events
/// carry an `alt` flag: many terminals have no horizontal wheel, so a
/// modifier reinterprets the vertical wheel as horizontal scrolling.
#[derive(Clone, Copy, Debug, PartialEq, Eq, Structural)]
pub enum MouseEvent {
    /// Left button pressed at the given cell.
    Down { column: u16, row: u16 },
    /// Pointer moved with the left button held.
    Drag { column: u16, row: u16 },
    /// Pointer moved with no button held.
    Moved,
    /// Wheel turned up at the given cell.
    ScrollUp { column: u16, row: u16, alt: bool },
    /// Wheel turned down at the given cell.
    ScrollDown { column: u16, row: u16, alt: bool },
    /// Any other input event.
    Other,
}

/// What an event handler did with an event.
///
/// `Continue` means the event was not used and the next handler may try
/// it. The positional and step variants are requests against the owner
/// of the offset; `Inner` wraps the outcome of a content widget that the
/// event was forwarded to.
#[derive(Clone, Copy, Debug, PartialEq, Eq)]
pub enum ScrollOutcome<R> {
    /// The event was not used.
    Continue,
    /// The event was used, nothing changed.
    Unchanged,
    /// The event was used and an offset changed.
    Changed,
    /// Request to set the vertical offset to this value.
    VPos(usize),
    /// Request to set the horizontal offset to this value.
    HPos(usize),
    /// Request to scroll up by this many units.
    Up(usize),
    /// Request to scroll down by this many units.
    Down(usize),
    /// Request to scroll left by this many units.
    Left(usize),
    /// Request to scroll right by this many units.
    Right(usize),
    /// The event was forwarded to the content widget, with its outcome.
    Inner(R),
}

} // verus!
