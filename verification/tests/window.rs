//! The surface and the window mechanism: rendering into an oversized
//! off-screen surface and copying a window of it.

use rat_scrolled::InnerWidget;
use rat_scrolled::ScrollingState;
use rat_scrolled::ScrollingWidget;
use rat_scrolled::buffer::{Cell, Surface, copy_buffer};
use rat_scrolled::layout::{Rect, Size};
use rat_scrolled::view::{View, ViewState};

/// Draws `rows x cols` cells, each showing a digit derived from its
/// local coordinates, starting at the target area's corner.
struct Numbered {
    cols: u16,
    rows: u16,
}

impl<S> InnerWidget<S> for Numbered {
    fn render_inner(&self, area: Rect, buf: &mut Surface, _state: &mut S) {
        for dy in 0..self.rows.min(area.height) {
            for dx in 0..self.cols.min(area.width) {
                let symbol = char::from_digit(((dy * 10 + dx) % 10) as u32, 10).unwrap();
                buf.set(area.x + dx, area.y + dy, Cell { symbol, style: 1 });
            }
        }
    }
}

fn blank(area: Rect) -> Surface {
    Surface::new(
        area,
        Cell {
            symbol: '.',
            style: 0,
        },
    )
}

#[test]
fn surface_new_get_set() {
    let mut s = blank(Rect::new(2, 3, 4, 2));
    assert_eq!(s.get(2, 3), Cell { symbol: '.', style: 0 });
    assert_eq!(s.get(5, 4), Cell { symbol: '.', style: 0 });
    s.set(3, 4, Cell { symbol: 'x', style: 9 });
    assert_eq!(s.get(3, 4), Cell { symbol: 'x', style: 9 });
    assert_eq!(s.get(3, 3), Cell { symbol: '.', style: 0 });
    assert_eq!(s.get(2, 4), Cell { symbol: '.', style: 0 });
}

#[test]
fn copy_at_offset_zero_keeps_content_and_fills_the_rest() {
    // content drawn into a 3x2 corner of a 5x4 virtual surface
    let view_area = Rect::new(0, 0, 5, 4);
    let mut tmp = blank(view_area);
    Numbered { cols: 3, rows: 2 }.render_inner(view_area, &mut tmp, &mut ());

    // destination window larger than the virtual surface
    let area = Rect::new(10, 10, 7, 6);
    let mut dest = blank(area);
    copy_buffer(&tmp, 0, 0, 42, area, &mut dest);

    for dy in 0..6u16 {
        for dx in 0..7u16 {
            let got = dest.get(10 + dx, 10 + dy);
            if dx < 5 && dy < 4 {
                // overlapping region: the virtual surface as rendered
                assert_eq!(got, tmp.get(dx, dy), "at ({dx},{dy})");
            } else {
                // beyond the virtual surface: the fallback style exactly
                assert_eq!(got, Cell { symbol: ' ', style: 42 }, "at ({dx},{dy})");
            }
        }
    }
}

#[test]
fn copy_with_offsets_shifts_the_window() {
    let view_area = Rect::new(0, 0, 5, 4);
    let mut tmp = blank(view_area);
    Numbered { cols: 5, rows: 4 }.render_inner(view_area, &mut tmp, &mut ());

    let area = Rect::new(0, 0, 2, 2);
    let mut dest = blank(area);
    copy_buffer(&tmp, 2, 1, 0, area, &mut dest);

    assert_eq!(dest.get(0, 0), tmp.get(1, 2));
    assert_eq!(dest.get(1, 0), tmp.get(2, 2));
    assert_eq!(dest.get(0, 1), tmp.get(1, 3));
    assert_eq!(dest.get(1, 1), tmp.get(2, 3));
}

#[test]
fn copy_leaves_cells_outside_the_target_alone() {
    let mut tmp = blank(Rect::new(0, 0, 2, 2));
    tmp.set(0, 0, Cell { symbol: 'a', style: 1 });
    let mut dest = blank(Rect::new(0, 0, 6, 6));
    copy_buffer(&tmp, 0, 0, 7, Rect::new(1, 1, 3, 3), &mut dest);
    // inside the target: the window, then the fallback past the source
    assert_eq!(dest.get(1, 1), Cell { symbol: 'a', style: 1 });
    assert_eq!(dest.get(2, 2), Cell { symbol: '.', style: 0 });
    assert_eq!(dest.get(3, 1), Cell { symbol: ' ', style: 7 });
    assert_eq!(dest.get(3, 3), Cell { symbol: ' ', style: 7 });
    // outside the target: untouched
    assert_eq!(dest.get(0, 0), Cell { symbol: '.', style: 0 });
    assert_eq!(dest.get(4, 4), Cell { symbol: '.', style: 0 });
    assert_eq!(dest.get(0, 3), Cell { symbol: '.', style: 0 });
}

#[test]
fn view_renders_a_window_of_its_content() {
    let view = View::new(Numbered { cols: 30, rows: 40 })
        .view_size(Size::new(30, 40))
        .style(5);
    let mut state = ViewState::default();
    let area = Rect::new(0, 0, 10, 8);
    let mut buf = blank(area);

    view.render(area, &mut buf, &mut state, &mut ());
    assert_eq!(state.area, area);
    assert_eq!(state.view_area, Rect::new(0, 0, 30, 40));
    // offset 0: the content's own top-left corner
    assert_eq!(buf.get(0, 0).symbol, '0');
    assert_eq!(buf.get(3, 2).symbol, '3');

    state.v_offset = 12;
    state.h_offset = 4;
    let mut buf = blank(area);
    view.render(area, &mut buf, &mut state, &mut ());
    // the window starts at content cell (4, 12)
    assert_eq!(buf.get(0, 0).symbol, char::from_digit((12 * 10 + 4) % 10, 10).unwrap());
}

#[test]
fn view_fills_beyond_content_with_the_fallback_style() {
    let view = View::new(Numbered { cols: 3, rows: 2 })
        .view_size(Size::new(3, 2))
        .style(9);
    let mut state = ViewState::default();
    let area = Rect::new(0, 0, 5, 4);
    let mut buf = blank(area);
    view.render(area, &mut buf, &mut state, &mut ());
    assert_eq!(buf.get(0, 0).symbol, '0');
    assert_eq!(buf.get(2, 1).symbol, '2');
    assert_eq!(buf.get(4, 0), Cell { symbol: ' ', style: 9 });
    assert_eq!(buf.get(0, 3), Cell { symbol: ' ', style: 9 });
    assert_eq!(buf.get(4, 3), Cell { symbol: ' ', style: 9 });
}

#[test]
fn view_reports_need_scroll_against_its_size() {
    let view = View::new(Numbered { cols: 30, rows: 40 }).view_size(Size::new(30, 40));
    let (need_h, need_v) = view.need_scroll(Rect::new(0, 0, 10, 8), &mut ());
    assert!(need_h);
    assert!(need_v);
    let (need_h, need_v) = view.need_scroll(Rect::new(0, 0, 30, 40), &mut ());
    assert!(!need_h);
    assert!(!need_v);
    let (need_h, need_v) = view.need_scroll(Rect::new(0, 0, 40, 8), &mut ());
    assert!(!need_h);
    assert!(need_v);
}

#[test]
fn view_state_exposes_the_derived_axis_state() {
    // content natural size 200 rows, viewport 20 rows
    let mut state = ViewState::default();
    state.area = Rect::new(0, 0, 30, 20);
    state.view_area = Rect::new(0, 0, 30, 200);
    assert_eq!(state.vertical_max_offset(), 180);
    assert_eq!(state.vertical_page(), 20);
    assert_eq!(state.vertical_scroll(), 2);
    assert_eq!(state.horizontal_max_offset(), 0);
    assert_eq!(state.horizontal_page(), 30);
    assert_eq!(state.horizontal_scroll(), 3);
}

#[test]
fn view_state_offsets_are_bounded_by_the_view_itself() {
    let mut state = ViewState::default();
    state.area = Rect::new(0, 0, 10, 10);
    state.view_area = Rect::new(0, 0, 10, 50);
    assert!(state.set_vertical_offset(30));
    assert_eq!(state.vertical_offset(), 30);
    // a request past the view's extent clamps to the last cell
    assert!(state.set_vertical_offset(100));
    assert_eq!(state.vertical_offset(), 49);
    assert!(!state.set_vertical_offset(100));
    assert!(!state.set_vertical_offset(49));
    // at or above the extent, the offset is pulled back to the last cell
    state.v_offset = 50;
    assert!(state.set_vertical_offset(0));
    assert_eq!(state.vertical_offset(), 49);
    // horizontal mirror
    assert!(!state.set_horizontal_offset(0));
    assert!(state.set_horizontal_offset(3));
    assert_eq!(state.horizontal_offset(), 3);
    assert!(state.set_horizontal_offset(100));
    assert_eq!(state.horizontal_offset(), 9);
}

#[test]
fn view_state_scroll_up_saturates() {
    let mut state = ViewState::default();
    state.area = Rect::new(0, 0, 10, 10);
    state.view_area = Rect::new(0, 0, 10, 50);
    state.v_offset = 3;
    assert!(state.scroll_up(10));
    assert_eq!(state.vertical_offset(), 0);
    state.h_offset = 2;
    assert!(state.scroll_left(1));
    assert_eq!(state.horizontal_offset(), 1);
}
