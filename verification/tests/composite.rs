//! The composite wrapper: chrome decisions, layout, rendering and
//! event routing around a content widget.

use rat_scrolled::InnerWidget;
use rat_scrolled::ScrollingState;
use rat_scrolled::buffer::{Cell, Surface};
use rat_scrolled::event::{MouseEvent, ScrollOutcome};
use rat_scrolled::layout::{Rect, Size};
use rat_scrolled::scroll::ScrollbarRender;
use rat_scrolled::scrolled::{
    HScrollPosition, Scrolled, ScrolledState, ScrollbarPolicy, VScrollPosition,
    forwards_to_content,
};
use rat_scrolled::scroll::ScrollbarOrientation;
use rat_scrolled::view::{ViewState, ViewportState};

/// Draws a digit derived from the local coordinates into every cell.
struct Numbered {
    cols: u16,
    rows: u16,
}

impl<S> InnerWidget<S> for Numbered {
    fn render_inner(&self, area: Rect, buf: &mut Surface, _state: &mut S) {
        for dy in 0..self.rows.min(area.height) {
            for dx in 0..self.cols.min(area.width) {
                let symbol = char::from_digit(((dy * 10 + dx) % 10) as u32, 10).unwrap();
                buf.set(area.x + dx, area.y + dy, Cell { symbol, style: 1 });
            }
        }
    }
}

fn blank(area: Rect) -> Surface {
    Surface::new(area, Cell { symbol: '.', style: 0 })
}

fn view_scrolled(cols: u16, rows: u16) -> Scrolled<rat_scrolled::view::View<Numbered>> {
    Scrolled::new_view(Numbered { cols, rows }).view_size(Size::new(cols, rows))
}

/// A scrolled state whose widget shows `page` of `total` rows.
fn vertical_state(page: u16, total: u16) -> ScrolledState<ViewState> {
    let mut state: ScrolledState<ViewState> = ScrolledState::default();
    state.area = Rect::new(0, 0, 30, page);
    state.widget.area = Rect::new(0, 0, 30, page);
    state.widget.view_area = Rect::new(0, 0, 30, total);
    state
}

#[test]
fn policies_apply() {
    assert!(ScrollbarPolicy::Always.apply(false));
    assert!(ScrollbarPolicy::Always.apply(true));
    assert!(!ScrollbarPolicy::AsNeeded.apply(false));
    assert!(ScrollbarPolicy::AsNeeded.apply(true));
    assert!(!ScrollbarPolicy::Never.apply(false));
    assert!(!ScrollbarPolicy::Never.apply(true));
    assert_eq!(ScrollbarPolicy::default(), ScrollbarPolicy::AsNeeded);
}

#[test]
fn positions_map_to_orientations() {
    assert_eq!(HScrollPosition::Top.orientation(), ScrollbarOrientation::HorizontalTop);
    assert_eq!(HScrollPosition::Bottom.orientation(), ScrollbarOrientation::HorizontalBottom);
    assert_eq!(VScrollPosition::Left.orientation(), ScrollbarOrientation::VerticalLeft);
    assert_eq!(VScrollPosition::Right.orientation(), ScrollbarOrientation::VerticalRight);
    assert_eq!(HScrollPosition::default(), HScrollPosition::Bottom);
    assert_eq!(VScrollPosition::default(), VScrollPosition::Right);
}

#[test]
fn render_shows_both_bars_for_large_content() {
    let widget = view_scrolled(30, 40);
    let area = Rect::new(0, 0, 10, 8);
    let mut buf = blank(area);
    let mut state: ScrolledState<ViewState> = ScrolledState::default();

    let (h_plan, v_plan) = widget.render(area, &mut buf, &mut state);

    assert_eq!(state.area, area);
    assert_eq!(state.v_scrollbar_area, Some(Rect::new(9, 0, 1, 7)));
    assert_eq!(state.h_scrollbar_area, Some(Rect::new(0, 7, 9, 1)));
    assert_eq!(state.view_area, Rect::new(0, 0, 9, 7));

    match v_plan {
        Some(ScrollbarRender::Bar { area, orientation, max_offset, offset, page_len }) => {
            assert_eq!(area, Rect::new(9, 0, 1, 7));
            assert_eq!(orientation, ScrollbarOrientation::VerticalRight);
            assert_eq!(max_offset, 33);
            assert_eq!(offset, 0);
            assert_eq!(page_len, 7);
        }
        other => panic!("expected a vertical bar, got {other:?}"),
    }
    match h_plan {
        Some(ScrollbarRender::Bar { area, max_offset, page_len, .. }) => {
            assert_eq!(area, Rect::new(0, 7, 9, 1));
            assert_eq!(max_offset, 21);
            assert_eq!(page_len, 9);
        }
        other => panic!("expected a horizontal bar, got {other:?}"),
    }
    // the content was rendered into the interior
    assert_eq!(buf.get(0, 0).symbol, '0');
    assert_eq!(buf.get(8, 6).symbol, '8');
    // the track cells were left for the embedding
    assert_eq!(buf.get(9, 0), Cell { symbol: '.', style: 0 });
}

#[test]
fn render_as_needed_returns_the_space_when_content_fits() {
    // the content fits: chrome is not shown and the interior is whole
    let widget = view_scrolled(8, 6);
    let area = Rect::new(0, 0, 10, 8);
    let mut buf = blank(area);
    let mut state: ScrolledState<ViewState> = ScrolledState::default();

    let (h_plan, v_plan) = widget.render(area, &mut buf, &mut state);

    assert_eq!(h_plan, None);
    assert_eq!(v_plan, None);
    assert_eq!(state.v_scrollbar_area, None);
    assert_eq!(state.h_scrollbar_area, None);
    assert_eq!(state.view_area, area);
}

#[test]
fn render_never_hides_needed_bars() {
    let widget = view_scrolled(30, 40)
        .vertical_scrollbar_policy(ScrollbarPolicy::Never)
        .horizontal_scrollbar_policy(ScrollbarPolicy::Never);
    let area = Rect::new(0, 0, 10, 8);
    let mut buf = blank(area);
    let mut state: ScrolledState<ViewState> = ScrolledState::default();
    let (h_plan, v_plan) = widget.render(area, &mut buf, &mut state);
    assert_eq!(h_plan, None);
    assert_eq!(v_plan, None);
    assert_eq!(state.view_area, area);
}

#[test]
fn render_always_plans_a_track_with_nothing_to_scroll() {
    // content fits, but the policy forces the chrome; with no range to
    // scroll only the track is restyled
    let widget = view_scrolled(8, 6).vertical_scrollbar_policy(ScrollbarPolicy::Always);
    let area = Rect::new(0, 0, 10, 8);
    let mut buf = blank(area);
    let mut state: ScrolledState<ViewState> = ScrolledState::default();
    let (_h, v_plan) = widget.render(area, &mut buf, &mut state);
    match v_plan {
        Some(ScrollbarRender::TrackOnly { area, orientation }) => {
            assert_eq!(area, Rect::new(9, 0, 1, 8));
            assert_eq!(orientation, ScrollbarOrientation::VerticalRight);
        }
        other => panic!("expected a bare track, got {other:?}"),
    }
    assert_eq!(state.view_area, Rect::new(0, 0, 9, 8));
}

#[test]
fn render_with_border_reserves_the_frame() {
    let widget = view_scrolled(30, 40).block();
    let area = Rect::new(0, 0, 10, 8);
    let mut buf = blank(area);
    let mut state: ScrolledState<ViewState> = ScrolledState::default();
    let (h_plan, v_plan) = widget.render(area, &mut buf, &mut state);
    assert_eq!(state.view_area, Rect::new(1, 1, 8, 6));
    assert_eq!(state.v_scrollbar_area, Some(Rect::new(9, 1, 1, 6)));
    assert_eq!(state.h_scrollbar_area, Some(Rect::new(1, 7, 8, 1)));
    assert!(h_plan.is_some());
    assert!(v_plan.is_some());
}

#[test]
fn render_carries_the_overscroll_allowances() {
    let widget = view_scrolled(30, 40).vertical_overscroll(4).horizontal_overscroll(2);
    let area = Rect::new(0, 0, 10, 8);
    let mut buf = blank(area);
    let mut state: ScrolledState<ViewState> = ScrolledState::default();
    let _ = widget.render(area, &mut buf, &mut state);
    assert_eq!(state.v_overscroll, 4);
    assert_eq!(state.h_overscroll, 2);
}

#[test]
fn wheel_down_scrolls_one_step() {
    // content natural size 200 rows, viewport 20 rows
    let mut state = vertical_state(20, 200);
    assert_eq!(state.widget.vertical_max_offset(), 180);
    assert_eq!(state.widget.vertical_page(), 20);
    assert_eq!(state.widget.vertical_scroll(), 2);

    let r: ScrollOutcome<()> =
        state.handle_mouse(&MouseEvent::ScrollDown { column: 5, row: 5, alt: false });
    assert_eq!(r, ScrollOutcome::Changed);
    assert_eq!(state.widget.vertical_offset(), 2);

    let r: ScrollOutcome<()> =
        state.handle_mouse(&MouseEvent::ScrollUp { column: 5, row: 5, alt: false });
    assert_eq!(r, ScrollOutcome::Changed);
    assert_eq!(state.widget.vertical_offset(), 0);

    // at the top, scrolling up has nothing to do
    let r: ScrollOutcome<()> =
        state.handle_mouse(&MouseEvent::ScrollUp { column: 5, row: 5, alt: false });
    assert_eq!(r, ScrollOutcome::Continue);

    // outside the widget's area the wheel is not ours
    let r: ScrollOutcome<()> =
        state.handle_mouse(&MouseEvent::ScrollDown { column: 50, row: 5, alt: false });
    assert_eq!(r, ScrollOutcome::Continue);
}

#[test]
fn track_click_and_drag_move_the_offset() {
    let mut state = vertical_state(20, 120);
    state.v_scrollbar_area = Some(Rect::new(29, 0, 1, 22));
    assert_eq!(state.widget.vertical_max_offset(), 100);

    let r: ScrollOutcome<()> = state.handle_mouse(&MouseEvent::Down { column: 29, row: 11 });
    assert_eq!(r, ScrollOutcome::Changed);
    assert!(state.v_drag);
    assert_eq!(state.widget.vertical_offset(), 50);

    let r: ScrollOutcome<()> = state.handle_mouse(&MouseEvent::Drag { column: 29, row: 16 });
    assert_eq!(r, ScrollOutcome::Changed);
    assert_eq!(state.widget.vertical_offset(), 75);

    // any plain movement ends the drag
    let r: ScrollOutcome<()> = state.handle_mouse(&MouseEvent::Moved);
    assert_eq!(r, ScrollOutcome::Continue);
    assert!(!state.v_drag);
    let r: ScrollOutcome<()> = state.handle_mouse(&MouseEvent::Drag { column: 29, row: 16 });
    assert_eq!(r, ScrollOutcome::Continue);
    assert_eq!(state.widget.vertical_offset(), 75);
}

#[test]
fn click_beside_the_track_is_not_ours() {
    let mut state = vertical_state(20, 120);
    state.v_scrollbar_area = Some(Rect::new(29, 0, 1, 22));
    let r: ScrollOutcome<()> = state.handle_mouse(&MouseEvent::Down { column: 28, row: 11 });
    assert_eq!(r, ScrollOutcome::Continue);
    assert!(!state.v_drag);
}

#[test]
fn set_offset_limits_to_max_plus_overscroll() {
    let mut state = vertical_state(20, 120);
    state.v_overscroll = 5;
    assert!(state.set_vertical_offset(200));
    assert_eq!(state.widget.vertical_offset(), 105);
    assert!(state.scroll_up(5));
    assert_eq!(state.widget.vertical_offset(), 100);
    assert!(state.scroll_down(500));
    assert_eq!(state.widget.vertical_offset(), 105);
    assert_eq!(state.vertical_offset(), 105);
}

#[test]
fn horizontal_scrolling_mirrors_vertical() {
    let mut state: ScrolledState<ViewState> = ScrolledState::default();
    state.area = Rect::new(0, 0, 20, 10);
    state.widget.area = Rect::new(0, 0, 20, 10);
    state.widget.view_area = Rect::new(0, 0, 120, 10);
    assert_eq!(state.widget.horizontal_max_offset(), 100);

    let r: ScrollOutcome<()> =
        state.handle_mouse(&MouseEvent::ScrollDown { column: 5, row: 5, alt: true });
    assert_eq!(r, ScrollOutcome::Changed);
    assert_eq!(state.widget.horizontal_offset(), 2);
    let r: ScrollOutcome<()> =
        state.handle_mouse(&MouseEvent::ScrollUp { column: 5, row: 5, alt: true });
    assert_eq!(r, ScrollOutcome::Changed);
    assert_eq!(state.widget.horizontal_offset(), 0);
    assert!(state.scroll_right(7));
    assert_eq!(state.horizontal_offset(), 7);
    assert!(state.scroll_left(3));
    assert_eq!(state.horizontal_offset(), 4);
}

/// Draws the symbol held in its state into every cell, and counts its
/// renders there.
struct Stamp;

struct StampState {
    symbol: char,
    renders: usize,
}

impl InnerWidget<StampState> for Stamp {
    fn render_inner(&self, area: Rect, buf: &mut Surface, state: &mut StampState) {
        state.renders += 1;
        for y in area.y..area.y + area.height {
            for x in area.x..area.x + area.width {
                buf.set(x, y, Cell { symbol: state.symbol, style: 0 });
            }
        }
    }
}

#[test]
fn viewport_scrolls_a_stateful_widget() {
    let widget = Scrolled::new_viewport(Stamp).view_size(Size::new(30, 40));
    let area = Rect::new(0, 0, 10, 8);
    let mut buf = blank(area);
    let mut state: ScrolledState<ViewportState<StampState>> = ScrolledState {
        widget: ViewportState {
            view: ViewState::default(),
            widget: StampState { symbol: 'z', renders: 0 },
        },
        area: Rect::new(0, 0, 0, 0),
        view_area: Rect::new(0, 0, 0, 0),
        h_scrollbar_area: None,
        v_scrollbar_area: None,
        v_overscroll: 0,
        h_overscroll: 0,
        v_drag: false,
        h_drag: false,
    };

    let (h_plan, v_plan) = widget.render(area, &mut buf, &mut state);
    assert!(h_plan.is_some());
    assert!(v_plan.is_some());
    assert_eq!(state.widget.widget.renders, 1);
    assert_eq!(buf.get(0, 0).symbol, 'z');
    assert_eq!(state.widget.vertical_max_offset(), 33);

    // the paired state scrolls through the view
    let r: ScrollOutcome<()> =
        state.handle_mouse(&MouseEvent::ScrollDown { column: 1, row: 1, alt: false });
    assert_eq!(r, ScrollOutcome::Changed);
    assert_eq!(state.widget.vertical_offset(), 1);
}

#[test]
fn content_gets_first_refusal_inside_its_rectangle() {
    let view_area = Rect::new(1, 1, 8, 6);
    // competing events are forwarded only inside the content rectangle
    assert!(forwards_to_content(view_area, &MouseEvent::Down { column: 3, row: 3 }));
    assert!(!forwards_to_content(view_area, &MouseEvent::Down { column: 9, row: 3 }));
    assert!(forwards_to_content(
        view_area,
        &MouseEvent::ScrollDown { column: 2, row: 2, alt: false }
    ));
    assert!(!forwards_to_content(
        view_area,
        &MouseEvent::ScrollUp { column: 0, row: 0, alt: true }
    ));
    // everything else is always the content's first
    assert!(forwards_to_content(view_area, &MouseEvent::Moved));
    assert!(forwards_to_content(view_area, &MouseEvent::Drag { column: 50, row: 50 }));
    assert!(forwards_to_content(view_area, &MouseEvent::Other));
}
