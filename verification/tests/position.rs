use wordpick::position::{choose_workarea, locate, place_at, placement_in_range, popup_anchor, PopupPosition, Rect};

const SCREEN: Rect = Rect { x: 0, y: 0, w: 1920, h: 1080 };

#[test]
fn prefers_below() {
    let pos = locate((960, 300), (300, 200), SCREEN, PopupPosition::Below);
    assert_eq!(pos, (960 - 150, 308));
}

#[test]
fn flips_above_when_no_space_below() {
    let pos = locate((960, 1060), (300, 200), SCREEN, PopupPosition::Below);
    assert_eq!(pos, (810, 1060 - 8 - 200));
}

#[test]
fn falls_to_right_when_left_edge() {
    let wa = Rect { x: 0, y: 0, w: 400, h: 1080 };
    let pos = locate((10, 540), (300, 200), wa, PopupPosition::Below);
    assert_eq!(pos, (18, 440));
}

#[test]
fn clamps_as_last_resort() {
    let wa = Rect { x: 0, y: 0, w: 200, h: 150 };
    let pos = locate((100, 100), (300, 200), wa, PopupPosition::Below);
    assert_eq!(pos, (0, 0));
}

#[test]
fn top_right_pref() {
    let pos = locate((960, 300), (300, 200), SCREEN, PopupPosition::TopRight);
    assert_eq!(pos, (968, 92));
}

#[test]
fn falls_to_left_when_right_edge_and_tall() {
    // Below and above leave the screen (too tall), right leaves it too.
    let wa = Rect { x: 0, y: 0, w: 1920, h: 300 };
    let pos = locate((1900, 150), (300, 200), wa, PopupPosition::Below);
    assert_eq!(pos, (1900 - 8 - 300, 150 - 100));
}

#[test]
fn opens_at_anchor_when_only_that_fits() {
    // Exactly one spot fits: the anchor as the top-left corner.
    let wa = Rect { x: 100, y: 100, w: 300, h: 200 };
    let pos = locate((100, 100), (300, 200), wa, PopupPosition::Below);
    assert_eq!(pos, (100, 100));
}

#[test]
fn top_right_falls_back_to_below() {
    // No room above the anchor.
    let pos = locate((960, 100), (300, 200), SCREEN, PopupPosition::TopRight);
    assert_eq!(pos, (810, 108));
}

#[test]
fn odd_width_rounds_toward_zero() {
    let pos = locate((960, 300), (301, 201), SCREEN, PopupPosition::Below);
    assert_eq!(pos, (960 - 150, 308));
}

#[test]
fn clamp_keeps_origin_inside_offset_workarea() {
    let wa = Rect { x: 1920, y: 0, w: 100, h: 100 };
    let pos = locate((2000, 50), (300, 200), wa, PopupPosition::Below);
    assert_eq!(pos, (1920, 0));
}

#[test]
fn rect_contains_edges_inclusive() {
    assert!(SCREEN.contains(&Rect { x: 0, y: 0, w: 1920, h: 1080 }));
    assert!(!SCREEN.contains(&Rect { x: 1, y: 0, w: 1920, h: 1080 }));
    assert!(!SCREEN.contains(&Rect { x: -1, y: 10, w: 10, h: 10 }));
    assert!(SCREEN.contains(&Rect { x: 10, y: 10, w: 10, h: 10 }));
}

#[test]
fn workarea_prefers_anchor_monitor_then_primary() {
    let a = Rect { x: 1920, y: 0, w: 2560, h: 1440 };
    let p = Rect { x: 0, y: 0, w: 1280, h: 800 };
    assert_eq!(choose_workarea(Some(a), Some(p)), a);
    assert_eq!(choose_workarea(None, Some(p)), p);
    assert_eq!(choose_workarea(None, None), Rect { x: 0, y: 0, w: 1920, h: 1080 });
}

#[test]
fn anchor_falls_back_to_cursor() {
    assert_eq!(popup_anchor(Some((1, 2)), Some((3, 4))), Some((1, 2)));
    assert_eq!(popup_anchor(None, Some((3, 4))), Some((3, 4)));
    assert_eq!(popup_anchor(None, None), None);
}

#[test]
fn place_at_uses_fallback_size_and_screen() {
    // 420x540 below (960, 300): centred, 8 px below.
    assert!(placement_in_range((960, 300), None, None, None));
    let pos = place_at((960, 300), None, None, None, PopupPosition::Below);
    assert_eq!(pos, (960 - 210, 308));
}

#[test]
fn place_at_uses_window_size_and_monitor() {
    let m = Rect { x: 0, y: 0, w: 400, h: 1080 };
    let pos = place_at((10, 540), Some(m), None, Some((300, 200)), PopupPosition::Below);
    assert_eq!(pos, (18, 440));
}

#[test]
fn placement_range_check_rejects_overflow() {
    assert!(!placement_in_range((i32::MAX, 0), None, None, None));
    assert!(!placement_in_range((0, 0), Some(Rect { x: i32::MAX, y: 0, w: 10, h: 10 }), None, None));
    assert!(placement_in_range((0, 0), Some(Rect { x: -100, y: -100, w: 10, h: 10 }), None, Some((5, 5))));
}
