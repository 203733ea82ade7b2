use popup::{App, Message, State, WidgetId};

fn closed_app(state: State) -> App {
    App {
        opened_with_btn1: false,
        opened_with_btn2: false,
        opened_with_chk: false,
        opened_with_tog: false,
        opened_with_timer: false,
        is_checked: false,
        is_togged: false,
        state,
    }
}

fn everything_open() -> App {
    App {
        opened_with_btn1: true,
        opened_with_btn2: true,
        opened_with_chk: true,
        opened_with_tog: true,
        opened_with_timer: true,
        is_checked: true,
        is_togged: true,
        state: State::Ticking,
    }
}

#[test]
fn default_app_is_all_closed_and_idle() {
    assert_eq!(App::default(), closed_app(State::Idle));
}

#[test]
fn buttons_toggle_their_popups() {
    let mut app = App::default();
    app.update(Message::Button1Pressed);
    assert!(app.opened_with_btn1);
    assert!(!app.opened_with_btn2);
    app.update(Message::Button2Pressed);
    assert!(app.opened_with_btn2);
    app.update(Message::Button1Pressed);
    assert!(!app.opened_with_btn1);
    assert!(app.opened_with_btn2);
}

#[test]
fn pressing_twice_restores_state() {
    let start = App { opened_with_chk: true, is_checked: true, ..App::default() };
    for message in [Message::Button1Pressed, Message::Button2Pressed, Message::Tick, Message::Timer] {
        let mut app = start;
        app.update(message.clone());
        assert_ne!(app, start);
        app.update(message);
        assert_eq!(app, start);
    }
}

#[test]
fn checkbox_and_toggler_set_popup_and_control() {
    let mut app = App::default();
    app.update(Message::CheckboxChecked(true));
    assert!(app.opened_with_chk && app.is_checked);
    app.update(Message::TogglerTogged(true));
    assert!(app.opened_with_tog && app.is_togged);
    app.update(Message::CheckboxChecked(false));
    assert!(!app.opened_with_chk && !app.is_checked);
    assert!(app.opened_with_tog && app.is_togged);
    app.update(Message::TogglerTogged(false));
    assert_eq!(app, App::default());
}

#[test]
fn popup_opened_changes_nothing() {
    let mut app = everything_open();
    app.update(Message::PopupOpened);
    assert_eq!(app, everything_open());
}

#[test]
fn dismissing_nested_popup_keeps_outer_open() {
    let mut app = everything_open();
    app.update(Message::ClickedOutside(Some(WidgetId::new("btn_popup_2"))));
    assert_eq!(app, App { opened_with_btn2: false, ..everything_open() });
}

#[test]
fn dismissing_another_popup_closes_everything() {
    for id in [Some(WidgetId::new("btn_popup_1")), Some(WidgetId::new("chk_popup")), None] {
        let mut app = everything_open();
        app.update(Message::ClickedOutside(id));
        assert_eq!(app, closed_app(State::Ticking));
    }
}

#[test]
fn id_close_to_nested_name_is_another_popup() {
    let mut app = everything_open();
    app.update(Message::ClickedOutside(Some(WidgetId::new("btn_popup_2 "))));
    assert_eq!(app, closed_app(State::Ticking));
}

#[test]
fn tick_toggles_timer_popup() {
    let mut app = App::default();
    app.update(Message::Tick);
    assert!(app.opened_with_timer);
    app.update(Message::Tick);
    assert!(!app.opened_with_timer);
}

#[test]
fn timer_button_starts_and_stops_ticking() {
    let mut app = App::default();
    assert_eq!(app.subscription(), None);
    assert_eq!(app.timer_label(), "Start");
    app.update(Message::Timer);
    assert_eq!(app.state, State::Ticking);
    assert_eq!(app.subscription(), Some(1000));
    assert_eq!(app.timer_label(), "Stop");
    app.update(Message::Timer);
    assert_eq!(app.state, State::Idle);
    assert_eq!(app.subscription(), None);
    assert_eq!(app.timer_label(), "Start");
}

#[test]
fn controls_agree_after_any_sequence() {
    let mut app = App::default();
    let messages = vec![
        Message::CheckboxChecked(true),
        Message::TogglerTogged(true),
        Message::ClickedOutside(Some(WidgetId::new("btn_popup_2"))),
        Message::Button1Pressed,
        Message::ClickedOutside(None),
        Message::TogglerTogged(true),
        Message::Tick,
    ];
    for m in messages {
        app.update(m);
        assert_eq!(app.opened_with_chk, app.is_checked);
        assert_eq!(app.opened_with_tog, app.is_togged);
    }
}
