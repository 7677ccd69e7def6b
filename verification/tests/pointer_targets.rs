use peekaboox::pointer::{
    click_action_message, click_fallback_failure, click_target, current_cursor_description,
    drag_action_message, drag_endpoints, keyboard_action_message, matched_pointer_window,
    move_action_message, move_target,
    point_description, pointer_scope, relative_move_description, relative_move_position,
    selector_target_description, semantic_click_status, ClickTarget, DragFrom, DragTo,
    KeyboardAction, MoveTarget, PointerAction, StatusCode,
};
use peekaboox::types::{Point, Rect, UiElement, WindowInfo, WindowState};

fn window(id: &str, bounds: Rect) -> WindowInfo {
    WindowInfo {
        id: id.to_owned(),
        title: "Editor".to_owned(),
        app_id: Some("editor".to_owned()),
        bounds,
        focused: true,
        state: WindowState::Normal,
    }
}

#[test]
fn click_needs_exactly_one_target() {
    let error = click_target(Some(Point::new(1, 2)), Some("role=button".to_owned()), false)
        .unwrap_err();
    assert_eq!(error.code, StatusCode::InvalidArgument);
    assert_eq!(
        error.message,
        "provide exactly one click target: coordinates, semantic_selector, or ratio/region/window scope"
    );
    assert!(click_target(None, None, false).is_err());
    assert_eq!(
        click_target(Some(Point::new(1, 2)), None, false).unwrap(),
        ClickTarget::Coordinates(Point::new(1, 2))
    );
    assert_eq!(click_target(None, None, true).unwrap(), ClickTarget::Scope);
    assert_eq!(
        click_target(None, Some("label=OK".to_owned()), false).unwrap(),
        ClickTarget::Selector("label=OK".to_owned())
    );
}

#[test]
fn click_rejects_blank_selector() {
    let error = click_target(None, Some("   ".to_owned()), false).unwrap_err();
    assert_eq!(error.code, StatusCode::InvalidArgument);
    assert_eq!(error.message, "semantic_selector must not be empty");
}

#[test]
fn move_needs_exactly_one_target() {
    let error = move_target(None, Some(Point::new(3, 4)), true).unwrap_err();
    assert_eq!(
        error.message,
        "provide exactly one move target: coordinates, relative, or ratio/region/window scope"
    );
    assert_eq!(
        move_target(None, Some(Point::new(3, 4)), false).unwrap(),
        MoveTarget::Relative(Point::new(3, 4))
    );
    assert_eq!(move_target(None, None, true).unwrap(), MoveTarget::Scope);
}

#[test]
fn relative_move_checks_overflow() {
    assert_eq!(
        relative_move_position(Point::new(10, 20), Point::new(-5, 7)).unwrap(),
        Point::new(5, 27)
    );
    let error = relative_move_position(Point::new(i32::MAX, 0), Point::new(1, 0)).unwrap_err();
    assert_eq!(error.message, "relative move x coordinate overflows i32");
    let error = relative_move_position(Point::new(0, i32::MIN), Point::new(0, -1)).unwrap_err();
    assert_eq!(error.message, "relative move y coordinate overflows i32");
}

#[test]
fn drag_endpoints_are_checked_in_order() {
    let error = drag_endpoints(true, Some(Point::new(0, 0)), false, false, None, false).unwrap_err();
    assert_eq!(error.message, "drag region/window scope requires from_ratio or to_ratio");
    let error = drag_endpoints(false, Some(Point::new(0, 0)), true, false, None, true).unwrap_err();
    assert_eq!(
        error.message,
        "provide exactly one drag from endpoint: from, from_current, or from_ratio"
    );
    let error = drag_endpoints(false, None, true, false, Some(Point::new(1, 1)), true).unwrap_err();
    assert_eq!(error.message, "provide exactly one drag to endpoint: to or to_ratio");
    assert_eq!(
        drag_endpoints(true, None, false, true, Some(Point::new(9, 9)), false).unwrap(),
        (DragFrom::Ratio, DragTo::At(Point::new(9, 9)))
    );
    assert_eq!(
        drag_endpoints(false, None, true, false, None, true).unwrap(),
        (DragFrom::Current, DragTo::Ratio)
    );
}

#[test]
fn pointer_scope_prefers_region_inside_window() {
    let bounds = Rect::new(100, 50, 400, 300);
    let region = Rect::new(10, 20, 30, 40);
    assert_eq!(
        pointer_scope(PointerAction::Click, Some(bounds), Some(region), None).unwrap(),
        Rect::new(110, 70, 30, 40)
    );
    assert_eq!(pointer_scope(PointerAction::Click, Some(bounds), None, None).unwrap(), bounds);
    assert_eq!(pointer_scope(PointerAction::Move, None, Some(region), None).unwrap(), region);
    let error = pointer_scope(PointerAction::Click, Some(bounds), Some(Rect::new(390, 0, 20, 1)), None)
        .unwrap_err();
    assert_eq!(error.code, StatusCode::InvalidArgument);
    assert_eq!(error.message, "window-relative capture region must fit inside the window");
}

#[test]
fn pointer_scope_falls_back_to_screen() {
    assert_eq!(
        pointer_scope(PointerAction::Drag, None, None, Some((1920, 1080))).unwrap(),
        Rect::new(0, 0, 1920, 1080)
    );
    let error = pointer_scope(PointerAction::Drag, None, None, None).unwrap_err();
    assert_eq!(error.code, StatusCode::FailedPrecondition);
    assert_eq!(
        error.message,
        "drag ratio without region/window requires a detectable screen size"
    );
    let error = pointer_scope(PointerAction::Move, None, None, Some((-1, 10))).unwrap_err();
    assert_eq!(error.code, StatusCode::Internal);
    assert_eq!(error.message, "screen width overflows u32");
    let error = pointer_scope(PointerAction::Move, None, None, Some((10, 1 << 40))).unwrap_err();
    assert_eq!(error.message, "screen height overflows u32");
}

#[test]
fn matched_window_must_exist_and_have_size() {
    let error = matched_pointer_window(PointerAction::Move, None).unwrap_err();
    assert_eq!(error.code, StatusCode::NotFound);
    assert_eq!(error.message, "no window matched move filters");
    let error =
        matched_pointer_window(PointerAction::Click, Some(window("0x2a", Rect::new(0, 0, 0, 10))))
            .unwrap_err();
    assert_eq!(error.code, StatusCode::FailedPrecondition);
    assert_eq!(error.message, "window 0x2a has empty bounds");
    let found = window("0x2b", Rect::new(0, 0, 10, 10));
    assert_eq!(matched_pointer_window(PointerAction::Drag, Some(found.clone())).unwrap(), found);
}

#[test]
fn descriptions_name_points_and_selectors() {
    assert_eq!(point_description(Point::new(-3, 7)), "-3,7");
    assert_eq!(current_cursor_description(Point::new(5, 6)), "current cursor at 5,6");
    assert_eq!(
        relative_move_description(Point::new(10, -2), Point::new(100, 200)),
        "relative 10,-2 from 100,200"
    );
    let bounds = Rect::new(0, 0, 10, 10);
    let element = UiElement {
        id: "submit".to_owned(),
        role: "push button".to_owned(),
        label: None,
        bounds,
        center: bounds.center(),
        states: Vec::new(),
        window_id: None,
        window_title: None,
        app_id: None,
        parent_id: None,
        child_ids: Vec::new(),
    };
    assert_eq!(
        selector_target_description("role=push button", Point::new(5, 5), &element),
        "selector \"role=push button\" at 5,5 (push button)"
    );
}

#[test]
fn semantic_lookup_failures_map_to_status_codes() {
    let missing = semantic_click_status(
        "no clickable accessibility element matched selector \"label=Nope\"".to_owned(),
    );
    assert_eq!(missing.code, StatusCode::NotFound);
    let broken = semantic_click_status("AT-SPI bus lookup failed".to_owned());
    assert_eq!(broken.code, StatusCode::Internal);
    assert_eq!(broken.message, "AT-SPI bus lookup failed");

    let both = click_fallback_failure(true, "no match", "no OCR text");
    assert_eq!(both.code, StatusCode::NotFound);
    assert_eq!(both.message, "no match; vision fallback also failed: no OCR text");
    let unread = click_fallback_failure(false, "bus down", "no OCR text");
    assert_eq!(unread.code, StatusCode::Internal);
    assert_eq!(
        unread.message,
        "accessibility lookup failed: bus down; vision fallback also failed: no OCR text"
    );
}

#[test]
fn action_messages_report_backend_and_restore() {
    assert_eq!(
        click_action_message(false, true, "12,34", Point::new(12, 34), "xdotool", "x11"),
        "clicked 12,34 (12,34) using xdotool/x11 and restored"
    );
    assert_eq!(
        click_action_message(true, true, "12,34", Point::new(12, 34), "xdotool", "x11"),
        "would click 12,34 (12,34) using xdotool/x11"
    );
    assert_eq!(
        move_action_message(false, false, "1,2", Point::new(1, 2), "ydotool", "wayland"),
        "moved mouse to 1,2 (1,2) using ydotool/wayland"
    );
    assert_eq!(
        drag_action_message(
            true,
            false,
            Point::new(1, 2),
            "1,2",
            Point::new(3, 4),
            "3,4",
            "xdotool",
            "x11"
        ),
        "would drag from 1,2 (1,2) to 3,4 (3,4) using xdotool/x11"
    );
}

#[test]
fn keyboard_messages_name_the_action_and_backend() {
    assert_eq!(
        keyboard_action_message(KeyboardAction::TypeText, true, "wtype", "wayland"),
        "would type text using wtype/wayland"
    );
    assert_eq!(
        keyboard_action_message(KeyboardAction::PasteText, false, "wl-copy", "wayland"),
        "pasted text using wl-copy/wayland"
    );
    assert_eq!(
        keyboard_action_message(KeyboardAction::Hotkey, false, "xdotool", "x11"),
        "pressed hotkey using xdotool/x11"
    );
}
