//! Track layout and the pointer-to-offset mapping.

use rat_scrolled::layout::{Position, Rect, hit_to_offset};
use rat_scrolled::scroll::{
    Scroll, ScrollState, ScrollbarOrientation, ScrollbarType, layout_scroll,
};

#[test]
fn rect_contains_and_empty() {
    let r = Rect::new(2, 3, 4, 5);
    assert!(r.contains(Position::new(2, 3)));
    assert!(r.contains(Position::new(5, 7)));
    assert!(!r.contains(Position::new(6, 3)));
    assert!(!r.contains(Position::new(2, 8)));
    assert!(!r.contains(Position::new(1, 3)));
    assert!(!r.is_empty());
    assert!(Rect::new(2, 3, 0, 5).is_empty());
    assert!(Rect::new(2, 3, 4, 0).is_empty());
}

#[test]
fn hit_center_of_track_maps_to_center_of_range() {
    // a vertical track of height 22: 2 arrow cells + 20 usable
    assert_eq!(hit_to_offset(11, 0, 22, 100), 50);
    // the far usable end maps past the maximum and is limited by callers
    assert_eq!(hit_to_offset(1, 0, 22, 100), 0);
    assert_eq!(hit_to_offset(21, 0, 22, 100), 100);
}

#[test]
fn hit_at_or_before_leading_arrow_is_zero() {
    for pos in 0..=6u16 {
        assert_eq!(hit_to_offset(pos, 5, 30, 70), 0);
    }
    assert_ne!(hit_to_offset(7, 5, 30, 70), 0);
}

#[test]
fn hit_is_monotonic_in_position() {
    let mut last = 0usize;
    for pos in 0..120u16 {
        let here = hit_to_offset(pos, 7, 40, 1000);
        assert!(here >= last);
        last = here;
    }
}

#[test]
fn hit_with_no_usable_span_is_zero() {
    assert_eq!(hit_to_offset(10, 0, 2, 100), 0);
    assert_eq!(hit_to_offset(10, 0, 1, 100), 0);
    assert_eq!(hit_to_offset(10, 0, 0, 100), 0);
}

fn h_scroll() -> Scroll {
    Scroll::new().orientation(ScrollbarOrientation::HorizontalBottom)
}

fn v_scroll() -> Scroll {
    Scroll::new().orientation(ScrollbarOrientation::VerticalRight)
}

#[test]
fn layout_with_border_and_both_bars() {
    let area = Rect::new(0, 0, 20, 10);
    let h = h_scroll();
    let v = v_scroll();
    let (ha, va, inner) = layout_scroll(area, true, Some(&h), Some(&v));
    assert_eq!(ha, Rect::new(1, 9, 18, 1));
    assert_eq!(va, Rect::new(19, 1, 1, 8));
    assert_eq!(inner, Rect::new(1, 1, 18, 8));
}

#[test]
fn layout_rectangles_never_overlap() {
    let area = Rect::new(3, 2, 20, 10);
    let h = h_scroll().start_margin(1).end_margin(2);
    let v = v_scroll().start_margin(2);
    for block in [false, true] {
        let (ha, va, inner) = layout_scroll(area, block, Some(&h), Some(&v));
        for y in area.y..area.y + area.height {
            for x in area.x..area.x + area.width {
                let p = Position::new(x, y);
                let hits = ha.contains(p) as u8 + va.contains(p) as u8 + inner.contains(p) as u8;
                assert!(hits <= 1, "cell ({x},{y}) covered {hits} times");
            }
        }
    }
}

#[test]
fn layout_with_border_leaves_the_corners_alone() {
    let area = Rect::new(0, 0, 20, 10);
    let h = h_scroll();
    let v = v_scroll();
    let (ha, va, inner) = layout_scroll(area, true, Some(&h), Some(&v));
    for corner in [
        Position::new(0, 0),
        Position::new(19, 0),
        Position::new(0, 9),
        Position::new(19, 9),
    ] {
        assert!(!ha.contains(corner));
        assert!(!va.contains(corner));
        assert!(!inner.contains(corner));
    }
}

#[test]
fn layout_margins_per_orientation() {
    let area = Rect::new(0, 0, 20, 10);
    let h = h_scroll().orientation(ScrollbarOrientation::HorizontalTop);
    let v = v_scroll().orientation(ScrollbarOrientation::VerticalLeft);
    let (ha, va, inner) = layout_scroll(area, false, Some(&h), Some(&v));
    assert_eq!(ha, Rect::new(1, 0, 19, 1));
    assert_eq!(va, Rect::new(0, 1, 1, 9));
    assert_eq!(inner, Rect::new(1, 1, 19, 9));
}

#[test]
fn layout_without_bars() {
    let area = Rect::new(5, 6, 7, 8);
    let (ha, va, inner) = layout_scroll(area, false, None, None);
    assert!(ha.is_empty());
    assert!(va.is_empty());
    assert_eq!(inner, area);
}

#[test]
fn layout_empty_area_degrades_gracefully() {
    let area = Rect::new(0, 0, 0, 0);
    let h = h_scroll();
    let v = v_scroll();
    let (ha, va, inner) = layout_scroll(area, true, Some(&h), Some(&v));
    assert!(ha.is_empty());
    assert!(va.is_empty());
    assert!(inner.is_empty());
}

#[test]
fn map_position_index_uses_the_state_maximum() {
    let mut s = ScrollState::new();
    s.set_max_offset(100);
    assert_eq!(s.map_position_index(11, 0, 22), 50);
    assert_eq!(s.map_position_index(0, 0, 22), 0);
}

#[test]
fn scroll_builders_and_orientation_overrides() {
    let s = Scroll::new();
    assert_eq!(s.policy, ScrollbarType::Minimal);
    assert_eq!(s.orientation, ScrollbarOrientation::VerticalRight);
    assert!(s.is_vertical());

    let s = Scroll::new()
        .orientation(ScrollbarOrientation::HorizontalTop)
        .scrollbar_type(ScrollbarType::Show)
        .start_margin(1)
        .end_margin(2)
        .overscroll_by(3)
        .scroll_by(4);
    assert!(s.is_horizontal());
    assert_eq!(s.policy, ScrollbarType::Show);
    assert_eq!(s.start_margin, 1);
    assert_eq!(s.end_margin, 2);
    assert_eq!(s.overscroll_by, Some(3));
    assert_eq!(s.scroll_by, Some(4));

    let s = s.override_vertical();
    assert!(s.is_vertical());
    assert_eq!(s.orientation, ScrollbarOrientation::VerticalRight);
    let s = s.override_horizontal();
    assert_eq!(s.orientation, ScrollbarOrientation::HorizontalBottom);
    let kept = Scroll::new()
        .orientation(ScrollbarOrientation::VerticalLeft)
        .override_vertical();
    assert_eq!(kept.orientation, ScrollbarOrientation::VerticalLeft);
}
