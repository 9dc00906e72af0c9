//! The per-axis offset model: limiting, stepping, visibility and
//! content growth.

use rat_scrolled::layout::Rect;
use rat_scrolled::scroll::ScrollState;

fn state(offset: usize, max_offset: usize, page_len: usize) -> ScrollState {
    let mut s = ScrollState::new();
    s.set_max_offset(max_offset);
    s.set_page_len(page_len);
    let changed = s.set_offset(offset);
    assert_eq!(changed, offset != 0);
    s
}

#[test]
fn limit_stays_within_max_plus_overscroll() {
    let mut s = state(0, 10, 4);
    assert_eq!(s.limit_offset(7), 7);
    assert_eq!(s.limit_offset(10), 10);
    assert_eq!(s.limit_offset(11), 10);
    assert_eq!(s.limit_offset(usize::MAX), 10);

    s.set_overscroll_by(Some(5));
    assert_eq!(s.limit_offset(11), 11);
    assert_eq!(s.limit_offset(15), 15);
    assert_eq!(s.limit_offset(16), 15);
}

#[test]
fn limit_is_idempotent() {
    let mut s = state(0, 10, 4);
    s.set_overscroll_by(Some(3));
    for o in [0usize, 1, 9, 10, 12, 13, 14, 100, usize::MAX] {
        let once = s.limit_offset(o);
        assert_eq!(s.limit_offset(once), once);
        assert!(once <= 13);
    }
}

#[test]
fn limit_saturates_at_machine_limit() {
    let mut s = state(0, usize::MAX, 0);
    s.set_overscroll_by(Some(7));
    assert_eq!(s.limit_offset(usize::MAX), usize::MAX);
}

#[test]
fn set_offset_reports_change() {
    let mut s = state(0, 10, 4);
    assert!(s.set_offset(5));
    assert!(!s.set_offset(5));
    assert!(s.set_offset(20));
    assert_eq!(s.offset(), 10);
    assert!(!s.set_offset(11));
    assert_eq!(s.offset(), 10);
}

#[test]
fn scroll_to_pos_moves_just_enough() {
    // position below the page: jump so that pos is the last visible unit
    let mut s = state(10, 100, 5);
    assert!(s.scroll_to_pos(30));
    assert_eq!(s.offset(), 26);
    // position above the page: jump straight to it
    let mut s = state(10, 100, 5);
    assert!(s.scroll_to_pos(3));
    assert_eq!(s.offset(), 3);
    // position already visible: nothing happens
    let mut s = state(10, 100, 5);
    assert!(!s.scroll_to_pos(12));
    assert_eq!(s.offset(), 10);
}

#[test]
fn scroll_to_pos_twice_changes_nothing_more() {
    for pos in [0usize, 3, 9, 10, 14, 15, 30, 1000] {
        let mut s = state(10, 100, 5);
        s.scroll_to_pos(pos);
        let once = s.offset();
        assert!(!s.scroll_to_pos(pos));
        assert_eq!(s.offset(), once);
    }
}

#[test]
fn effective_step_is_never_zero() {
    // unset step, page too small for a tenth
    let s = state(0, 10, 0);
    assert_eq!(s.scroll_by(), 1);
    let s = state(0, 10, 5);
    assert_eq!(s.scroll_by(), 1);
    // unset step, page-derived
    let s = state(0, 10, 20);
    assert_eq!(s.scroll_by(), 2);
    let s = state(0, 10, 200);
    assert_eq!(s.scroll_by(), 20);
    // explicit step, floored at one
    let mut s = state(0, 10, 20);
    s.set_scroll_by(Some(0));
    assert_eq!(s.scroll_by(), 1);
    s.set_scroll_by(Some(7));
    assert_eq!(s.scroll_by(), 7);
    s.set_scroll_by(None);
    assert_eq!(s.scroll_by(), 2);
}

#[test]
fn scroll_up_down_saturate_and_limit() {
    let mut s = state(5, 10, 4);
    assert!(s.scroll_up(2));
    assert_eq!(s.offset(), 3);
    assert!(s.scroll_up(100));
    assert_eq!(s.offset(), 0);
    assert!(!s.scroll_up(1));
    assert!(s.scroll_down(4));
    assert_eq!(s.offset(), 4);
    assert!(s.scroll_down(100));
    assert_eq!(s.offset(), 10);
    assert!(!s.scroll_down(1));
    // left/right share the arithmetic
    let mut s = state(5, 10, 4);
    assert!(s.scroll_left(3));
    assert_eq!(s.offset(), 2);
    assert!(s.scroll_right(100));
    assert_eq!(s.offset(), 10);
}

#[test]
fn clamp_offset_handles_signed_input() {
    let mut s = state(0, 10, 4);
    s.set_overscroll_by(Some(2));
    assert_eq!(s.clamp_offset(-5), 0);
    assert_eq!(s.clamp_offset(0), 0);
    assert_eq!(s.clamp_offset(7), 7);
    assert_eq!(s.clamp_offset(12), 12);
    assert_eq!(s.clamp_offset(13), 12);
    assert_eq!(s.clamp_offset(isize::MAX), 12);
}

#[test]
fn items_added_shifts_offset_at_or_above_insertion() {
    // the worked example: inserting 5 at 3 with offset 10, max 50
    let mut s = state(10, 50, 4);
    s.items_added(3, 5);
    assert_eq!(s.offset(), 15);
    assert_eq!(s.max_offset(), 55);
    // inserting at 20 under the same start leaves the offset alone
    let mut s = state(10, 50, 4);
    s.items_added(20, 5);
    assert_eq!(s.offset(), 10);
    assert_eq!(s.max_offset(), 55);
    // insertion exactly at the offset shifts it
    let mut s = state(10, 50, 4);
    s.items_added(10, 2);
    assert_eq!(s.offset(), 12);
}

#[test]
fn items_added_then_removed_round_trips() {
    for (offset, at) in [(10usize, 3usize), (10, 10), (10, 20), (0, 0), (0, 5)] {
        let mut s = state(offset, 50, 4);
        s.items_added(at, 5);
        s.items_removed(at, 5);
        assert_eq!(s.offset(), offset);
        assert_eq!(s.max_offset(), 50);
    }
}

#[test]
fn items_removed_saturates() {
    let mut s = state(2, 3, 4);
    s.items_removed(0, 5);
    assert_eq!(s.offset(), 0);
    assert_eq!(s.max_offset(), 0);
}

#[test]
fn defaults_are_empty() {
    let s = ScrollState::default();
    assert_eq!(s.offset(), 0);
    assert_eq!(s.max_offset(), 0);
    assert_eq!(s.page_len(), 0);
    assert_eq!(s.overscroll_by(), 0);
    assert_eq!(s.area, Rect { x: 0, y: 0, width: 0, height: 0 });
    assert!(!s.drag);
    assert!(s.is_vertical());
    assert!(!s.is_horizontal());
}
