use site_banner::popup::{classify_click, compute_placement, rect_contains};
use site_banner::{Placement, Point, Popup, PopupAction, PopupConfig, PopupEvent, PopupTrigger, Rect};

fn click_popup() -> Popup {
    Popup::new(PopupConfig { offset: (20, 0), trigger: PopupTrigger::Click, has_default_padding: true })
}

#[test]
fn click_opens_outside_click_closes() {
    let mut p = click_popup();
    assert!(!p.is_open());
    assert_eq!(p.handle(PopupEvent::AnchorClick), PopupAction::Open);
    assert!(p.is_open());
    assert!(p.needs_dismiss_listener());
    assert_eq!(p.handle(PopupEvent::OutsideClick), PopupAction::Close);
    assert!(!p.is_open());
    assert!(!p.needs_dismiss_listener());
}

#[test]
fn second_click_closes() {
    let mut p = click_popup();
    p.handle(PopupEvent::AnchorClick);
    assert_eq!(p.handle(PopupEvent::AnchorClick), PopupAction::Close);
    assert!(!p.is_open());
}

#[test]
fn outside_click_while_closed_stays() {
    let mut p = click_popup();
    assert_eq!(p.handle(PopupEvent::OutsideClick), PopupAction::Stay);
    assert!(!p.is_open());
}

#[test]
fn click_popup_ignores_hover() {
    let mut p = click_popup();
    assert_eq!(p.handle(PopupEvent::PointerEnter), PopupAction::Stay);
    assert!(!p.is_open());
}

#[test]
fn hover_opens_and_leave_closes() {
    let mut p = Popup::new(PopupConfig { offset: (0, 0), trigger: PopupTrigger::Hover, has_default_padding: false });
    assert_eq!(p.handle(PopupEvent::AnchorClick), PopupAction::Stay);
    assert_eq!(p.handle(PopupEvent::PointerEnter), PopupAction::Open);
    assert_eq!(p.handle(PopupEvent::PointerLeave), PopupAction::Close);
    p.handle(PopupEvent::PointerEnter);
    assert_eq!(p.handle(PopupEvent::OutsideClick), PopupAction::Close);
}

#[test]
fn reset_closes() {
    let mut p = click_popup();
    p.handle(PopupEvent::AnchorClick);
    assert_eq!(p.reset(), PopupAction::Close);
    assert!(!p.is_open());
    assert_eq!(p.reset(), PopupAction::Stay);
}

#[test]
fn origin_below_anchor_with_offset() {
    let p = click_popup();
    let anchor = Rect { x: 100, y: 50, width: 40, height: 20 };
    let r = p.place(Some(anchor), 100, 1024);
    assert_eq!(r, Placement { x: 140, y: 70, leftward: false });
}

#[test]
fn overflow_on_the_right_flips_left() {
    let anchor = Rect { x: 100, y: 50, width: 40, height: 20 };
    let r = compute_placement(Some(anchor), (20, 0), 100, 200);
    assert_eq!(r, Placement { x: 0, y: 70, leftward: true });
    assert!(r.x + 100 <= 200);
}

#[test]
fn panel_ending_at_viewport_edge_does_not_flip() {
    let anchor = Rect { x: 100, y: 50, width: 40, height: 20 };
    let r = compute_placement(Some(anchor), (20, 0), 60, 200);
    assert_eq!(r, Placement { x: 140, y: 70, leftward: false });
}

#[test]
fn unmeasured_anchor_falls_back_to_offset() {
    let r = compute_placement(None, (20, 5), 100, 10);
    assert_eq!(r, Placement { x: 20, y: 5, leftward: false });
}

#[test]
fn extreme_coordinates_do_not_overflow() {
    let anchor = Rect { x: i32::MAX, y: i32::MAX, width: u32::MAX, height: u32::MAX };
    let r = compute_placement(Some(anchor), (i32::MAX, i32::MAX), u32::MAX, 0);
    assert!(r.leftward);
    assert_eq!(r.y, i32::MAX as i64 + u32::MAX as i64 + i32::MAX as i64);
}

#[test]
fn classify_clicks() {
    let anchor = Rect { x: 0, y: 0, width: 10, height: 10 };
    let panel = Rect { x: 20, y: 10, width: 50, height: 50 };
    assert_eq!(classify_click(Point { x: 5, y: 5 }, anchor, Some(panel)), Some(PopupEvent::AnchorClick));
    assert_eq!(classify_click(Point { x: 30, y: 30 }, anchor, Some(panel)), None);
    assert_eq!(classify_click(Point { x: 30, y: 30 }, anchor, None), Some(PopupEvent::OutsideClick));
    assert_eq!(classify_click(Point { x: 100, y: 100 }, anchor, Some(panel)), Some(PopupEvent::OutsideClick));
}

#[test]
fn rect_edges() {
    let r = Rect { x: 0, y: 0, width: 10, height: 10 };
    assert!(rect_contains(r, Point { x: 0, y: 0 }));
    assert!(!rect_contains(r, Point { x: 10, y: 5 }));
    assert!(!rect_contains(Rect { x: 0, y: 0, width: 0, height: 0 }, Point { x: 0, y: 0 }));
}

#[test]
fn narrow_anchor_flip_is_not_clipped_on_the_left() {
    let anchor = Rect { x: 200, y: 0, width: 20, height: 20 };
    let r = compute_placement(Some(anchor), (20, 0), 200, 300);
    assert_eq!(r, Placement { x: 0, y: 20, leftward: true });
    assert!(r.x >= 0 && r.x + 200 <= 300);
}

#[test]
fn qr_code_panel_flips_inside_viewport() {
    let p = Popup::new(PopupConfig { offset: (20, 0), trigger: PopupTrigger::Click, has_default_padding: false });
    let r = p.place(Some(Rect { x: 500, y: 50, width: 40, height: 20 }), 200, 600);
    assert_eq!(r, Placement { x: 300, y: 70, leftward: true });
}

#[test]
fn flip_without_room_starts_at_left_edge() {
    let anchor = Rect { x: 50, y: 0, width: 20, height: 10 };
    let r = compute_placement(Some(anchor), (0, 0), 200, 100);
    assert_eq!(r, Placement { x: 0, y: 10, leftward: true });
}

#[test]
fn origin_moves_with_anchor() {
    let p = click_popup();
    let first = p.place(Some(Rect { x: 100, y: 50, width: 40, height: 20 }), 100, 1024);
    let moved = p.place(Some(Rect { x: 130, y: 10, width: 40, height: 20 }), 100, 1024);
    assert_eq!((moved.x - first.x, moved.y - first.y), (30, -40));
}
