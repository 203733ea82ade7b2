use popup::{overlay_response, Anchor, Hook, OverlayInput, OverlayResponse, PopupOptions, PopupState, Position, WidgetId};

#[test]
fn default_position_is_top() {
    assert_eq!(Position::default(), Position::Top);
}

#[test]
fn anchors_of_each_position() {
    let cases = [
        (Position::Top, Anchor::Centered, Anchor::Before),
        (Position::Bottom, Anchor::Centered, Anchor::After),
        (Position::Left, Anchor::Before, Anchor::Centered),
        (Position::Right, Anchor::After, Anchor::Centered),
        (Position::Center, Anchor::Centered, Anchor::Centered),
    ];
    for (p, h, v) in cases {
        assert_eq!(p.horizontal_anchor(), h);
        assert_eq!(p.vertical_anchor(), v);
    }
}

#[test]
fn new_popup_options_defaults() {
    let o = PopupOptions::new(true);
    assert!(o.id.is_none());
    assert_eq!(o.position, Position::Top);
    assert!(o.snap_within_viewport);
    assert!(o.opened);
    assert!(!o.focus_trap);
    assert!(!PopupOptions::new(false).opened);
}

#[test]
fn popup_options_builders() {
    let o = PopupOptions::new(false)
        .id(WidgetId::new("chk_popup"))
        .position(Position::Right)
        .snap_within_viewport(false)
        .opened(true)
        .focus_trap(true);
    assert_eq!(o.id, Some(WidgetId::new("chk_popup")));
    assert_eq!(o.position, Position::Right);
    assert!(!o.snap_within_viewport);
    assert!(o.opened);
    assert!(o.focus_trap);
}

#[test]
fn widget_id_equality_and_name() {
    let a = WidgetId::new("btn_popup_1");
    assert_eq!(a.name(), "btn_popup_1");
    assert_eq!(a, WidgetId::new("btn_popup_1"));
    assert_ne!(a, WidgetId::new("btn_popup_2"));
}

#[test]
fn fresh_popup_state_is_closed() {
    assert!(!PopupState::default().previous_opened);
}

#[test]
fn sync_fires_open_then_close() {
    let mut s = PopupState::default();
    assert_eq!(s.sync(false), Hook::Quiet);
    assert_eq!(s.sync(true), Hook::Open);
    assert!(s.previous_opened);
    assert_eq!(s.sync(true), Hook::Quiet);
    assert_eq!(s.sync(false), Hook::Close);
    assert!(!s.previous_opened);
    assert_eq!(s.sync(false), Hook::Quiet);
}

#[test]
fn hooks_alternate_over_a_run() {
    let mut s = PopupState::default();
    let seen = [true, true, false, true, false, false, true];
    let mut balance: i32 = 0;
    for opened in seen {
        match s.sync(opened) {
            Hook::Open => balance += 1,
            Hook::Close => balance -= 1,
            Hook::Quiet => {}
        }
        assert!(balance == 0 || balance == 1);
        assert_eq!(balance == 1, opened);
    }
}

fn response(dismiss: bool, before: bool, after: bool) -> OverlayResponse {
    OverlayResponse { dismiss, capture_before_content: before, capture_after_content: after }
}

#[test]
fn click_outside_dismisses() {
    let input = OverlayInput::LeftButtonPressed { over_popup: false, over_widget: false };
    assert_eq!(overlay_response(input, true, false), response(true, false, false));
    assert_eq!(overlay_response(input, false, true), response(false, false, false));
}

#[test]
fn click_on_popup_or_widget_keeps_popup() {
    for (over_popup, over_widget) in [(true, false), (false, true), (true, true)] {
        let input = OverlayInput::LeftButtonPressed { over_popup, over_widget };
        assert_eq!(overlay_response(input, true, true), response(false, false, false));
    }
}

#[test]
fn escape_dismisses_and_is_captured() {
    assert_eq!(overlay_response(OverlayInput::EscapePressed, true, false), response(true, true, false));
    assert_eq!(overlay_response(OverlayInput::EscapePressed, false, true), response(false, false, false));
}

#[test]
fn tab_is_captured_only_with_focus_trap() {
    assert_eq!(overlay_response(OverlayInput::TabPressed, true, true), response(false, false, true));
    assert_eq!(overlay_response(OverlayInput::TabPressed, true, false), response(false, false, false));
}

#[test]
fn other_events_do_nothing() {
    assert_eq!(overlay_response(OverlayInput::Other, true, true), response(false, false, false));
}
