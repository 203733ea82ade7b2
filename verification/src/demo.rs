use vstd::prelude::*;

use crate::options::WidgetId;

verus! {

/// Whether the demonstration's timer runs.
#[derive(Debug, Clone, Copy, PartialEq, Eq, Structural)]
pub enum State {
    Idle,
    Ticking,
}

/// The messages of the demonstration application.
#[derive(Debug, Clone)]
pub enum Message {
    /// The button of the outer popup was pressed.
    Button1Pressed,
    /// The button of the nested popup was pressed.
    Button2Pressed,
    /// The checkbox was set to the given value.
    CheckboxChecked(bool),
    /// The toggler was set to the given value.
    TogglerTogged(bool),
    /// A popup opened.
    PopupOpened,
    /// A popup was dismissed by a click outside it or by Escape; the id is
    /// that of the popup.
    ClickedOutside(Option<WidgetId>),
    /// The timer ticked.
    Tick,
    /// The timer button was pressed.
    Timer,
}

/// The state of the demonstration application: which popups are open, the
/// values of the checkbox and the toggler, and whether the timer runs.
#[derive(Debug, Clone, Copy, PartialEq, Eq, Structural)]
pub struct App {
    pub opened_with_btn1: bool,
    pub opened_with_btn2: bool,
    pub opened_with_chk: bool,
    pub opened_with_tog: bool,
    pub opened_with_timer: bool,
    pub is_checked: bool,
    pub is_togged: bool,
    pub state: State,
}

/// The id is that of the nested popup, `"btn_popup_2"`.
pub open spec fn is_nested_popup(id: Option<WidgetId>) -> bool {
    match id {
        Some(i) => i@ == "btn_popup_2"@,
        None => false,
    }
}

/// The period of the timer, in milliseconds.
pub const TICK_MILLIS: u64 = 1000;

impl Default for App {
    /// Every popup closed, checkbox and toggler off, timer idle.
    fn default() -> (r: Self)
        ensures
            r == App::closed(State::Idle),
            !r.opened_with_btn1 && !r.opened_with_btn2 && !r.opened_with_chk,
            !r.opened_with_tog && !r.opened_with_timer,
            !r.is_checked && !r.is_togged,
            r.state == State::Idle,
    {
        App {
            opened_with_btn1: false,
            opened_with_btn2: false,
            opened_with_chk: false,
            opened_with_tog: false,
            opened_with_timer: false,
            is_checked: false,
            is_togged: false,
            state: State::Idle,
        }
    }
}

impl App {
    /// Every popup closed, checkbox and toggler off, the timer as `state`.
    pub open spec fn closed(state: State) -> App {
        App {
            opened_with_btn1: false,
            opened_with_btn2: false,
            opened_with_chk: false,
            opened_with_tog: false,
            opened_with_timer: false,
            is_checked: false,
            is_togged: false,
            state,
        }
    }

    /// The state after `message`.
    pub open spec fn after(self, message: Message) -> App {
        match message {
            Message::Button1Pressed => App { opened_with_btn1: !self.opened_with_btn1, ..self },
            Message::Button2Pressed => App { opened_with_btn2: !self.opened_with_btn2, ..self },
            Message::CheckboxChecked(open) => App {
                opened_with_chk: open,
                is_checked: open,
                ..self
            },
            Message::TogglerTogged(open) => App { opened_with_tog: open, is_togged: open, ..self },
            Message::PopupOpened => self,
            Message::ClickedOutside(id) => if is_nested_popup(id) {
                App { opened_with_btn2: false, ..self }
            } else {
                App::closed(self.state)
            },
            Message::Tick => App { opened_with_timer: !self.opened_with_timer, ..self },
            Message::Timer => App {
                state: match self.state {
                    State::Idle => State::Ticking,
                    State::Ticking => State::Idle,
                },
                ..self
            },
        }
    }

    /// The checkbox's popup is open exactly when the checkbox is checked,
    /// and the toggler's popup exactly when the toggler is on.
    pub open spec fn controls_agree(self) -> bool {
        &&& self.opened_with_chk == self.is_checked
        &&& self.opened_with_tog == self.is_togged
    }

    /// Applies `message`.
    ///
    /// The buttons toggle their popups; the checkbox and the toggler open
    /// their popups as they are set; a dismissal of the nested popup closes
    /// only that popup, and any other dismissal closes every popup and
    /// clears the checkbox and the toggler; a tick toggles the timer's
    /// popup; the timer button starts or stops the timer.
    pub fn update(&mut self, message: Message)
        ensures
            *final(self) == old(self).after(message),
    {
        match message {
            Message::Button1Pressed => {
                self.opened_with_btn1 = !self.opened_with_btn1;
            },
            Message::Button2Pressed => {
                self.opened_with_btn2 = !self.opened_with_btn2;
            },
            Message::CheckboxChecked(open) => {
                self.opened_with_chk = open;
                self.is_checked = open;
            },
            Message::TogglerTogged(open) => {
                self.opened_with_tog = open;
                self.is_togged = open;
            },
            Message::PopupOpened => {},
            Message::ClickedOutside(id) => {
                let nested = match &id {
                    Some(i) => {
                        let nested_id = WidgetId::new("btn_popup_2");
                        i.eq(&nested_id)
                    },
                    None => false,
                };
                if nested {
                    self.opened_with_btn2 = false;
                } else {
                    self.opened_with_btn1 = false;
                    self.opened_with_btn2 = false;
                    self.opened_with_chk = false;
                    self.opened_with_tog = false;
                    self.opened_with_timer = false;
                    self.is_checked = false;
                    self.is_togged = false;
                }
            },
            Message::Tick => {
                self.opened_with_timer = !self.opened_with_timer;
            },
            Message::Timer => {
                self.state = match self.state {
                    State::Idle => State::Ticking,
                    State::Ticking => State::Idle,
                };
            },
        }
    }

    /// The timer's period in milliseconds while it runs, `None` while it is
    /// idle.
    pub fn subscription(&self) -> (r: Option<u64>)
        ensures
            r == (if self.state == State::Ticking {
                Some(TICK_MILLIS)
            } else {
                None::<u64>
            }),
    {
        match self.state {
            State::Idle => None,
            State::Ticking => Some(TICK_MILLIS),
        }
    }

    /// The label of the timer button: "Start" while idle, "Stop" while the
    /// timer runs.
    pub fn timer_label(&self) -> (r: &'static str)
        ensures
            self.state == State::Idle ==> r@ == "Start"@,
            self.state == State::Ticking ==> r@ == "Stop"@,
    {
        match self.state {
            State::Idle => "Start",
            State::Ticking => "Stop",
        }
    }
}

/// Pressing a button, a tick, or pressing the timer button twice gives back
/// the state from before.
pub proof fn lemma_toggles_undo(app: App)
    ensures
        app.after(Message::Button1Pressed).after(Message::Button1Pressed) == app,
        app.after(Message::Button2Pressed).after(Message::Button2Pressed) == app,
        app.after(Message::Tick).after(Message::Tick) == app,
        app.after(Message::Timer).after(Message::Timer) == app,
{
}

/// The outer popup's button flips that popup and nothing else.
pub proof fn lemma_button1_flips_outer_only(app: App)
    ensures
        ({
            let next = app.after(Message::Button1Pressed);
            &&& next.opened_with_btn1 == !app.opened_with_btn1
            &&& next.opened_with_btn2 == app.opened_with_btn2
            &&& next.opened_with_chk == app.opened_with_chk
            &&& next.opened_with_tog == app.opened_with_tog
            &&& next.opened_with_timer == app.opened_with_timer
            &&& next.is_checked == app.is_checked
            &&& next.is_togged == app.is_togged
            &&& next.state == app.state
        }),
{
}

/// The nested popup's button flips that popup and nothing else.
pub proof fn lemma_button2_flips_nested_only(app: App)
    ensures
        ({
            let next = app.after(Message::Button2Pressed);
            &&& next.opened_with_btn1 == app.opened_with_btn1
            &&& next.opened_with_btn2 == !app.opened_with_btn2
            &&& next.opened_with_chk == app.opened_with_chk
            &&& next.opened_with_tog == app.opened_with_tog
            &&& next.opened_with_timer == app.opened_with_timer
            &&& next.is_checked == app.is_checked
            &&& next.is_togged == app.is_togged
            &&& next.state == app.state
        }),
{
}

/// Setting the checkbox checks it and opens or closes its popup to match;
/// the toggler, the other popups and the timer are left alone.
pub proof fn lemma_checkbox_sets_own_popup_only(app: App, open: bool)
    ensures
        ({
            let next = app.after(Message::CheckboxChecked(open));
            &&& next.opened_with_btn1 == app.opened_with_btn1
            &&& next.opened_with_btn2 == app.opened_with_btn2
            &&& next.opened_with_chk == open
            &&& next.opened_with_tog == app.opened_with_tog
            &&& next.opened_with_timer == app.opened_with_timer
            &&& next.is_checked == open
            &&& next.is_togged == app.is_togged
            &&& next.state == app.state
        }),
{
}

/// Setting the toggler switches it and opens or closes its popup to match;
/// the checkbox, the other popups and the timer are left alone.
pub proof fn lemma_toggler_sets_own_popup_only(app: App, open: bool)
    ensures
        ({
            let next = app.after(Message::TogglerTogged(open));
            &&& next.opened_with_btn1 == app.opened_with_btn1
            &&& next.opened_with_btn2 == app.opened_with_btn2
            &&& next.opened_with_chk == app.opened_with_chk
            &&& next.opened_with_tog == open
            &&& next.opened_with_timer == app.opened_with_timer
            &&& next.is_checked == app.is_checked
            &&& next.is_togged == open
            &&& next.state == app.state
        }),
{
}

/// The notice that a popup opened changes nothing.
pub proof fn lemma_popup_opened_changes_nothing(app: App)
    ensures
        app.after(Message::PopupOpened) == app,
{
}

/// A timer tick flips the timer's popup and nothing else.
pub proof fn lemma_tick_flips_timer_popup_only(app: App)
    ensures
        ({
            let next = app.after(Message::Tick);
            &&& next.opened_with_btn1 == app.opened_with_btn1
            &&& next.opened_with_btn2 == app.opened_with_btn2
            &&& next.opened_with_chk == app.opened_with_chk
            &&& next.opened_with_tog == app.opened_with_tog
            &&& next.opened_with_timer == !app.opened_with_timer
            &&& next.is_checked == app.is_checked
            &&& next.is_togged == app.is_togged
            &&& next.state == app.state
        }),
{
}

/// The timer button starts an idle timer and stops a running one, and
/// changes no popup and no control.
pub proof fn lemma_timer_switches_state_only(app: App)
    ensures
        ({
            let next = app.after(Message::Timer);
            &&& next.opened_with_btn1 == app.opened_with_btn1
            &&& next.opened_with_btn2 == app.opened_with_btn2
            &&& next.opened_with_chk == app.opened_with_chk
            &&& next.opened_with_tog == app.opened_with_tog
            &&& next.opened_with_timer == app.opened_with_timer
            &&& next.is_checked == app.is_checked
            &&& next.is_togged == app.is_togged
            &&& next.state != app.state
        }),
{
}

/// Dismissing the popup whose id is named "btn_popup_2" (the nested one)
/// closes that popup and leaves everything else, the outer popup among it,
/// as it was.
pub proof fn lemma_nested_dismissal_keeps_outer(app: App, id: WidgetId)
    requires
        id@ == "btn_popup_2"@,
    ensures
        ({
            let next = app.after(Message::ClickedOutside(Some(id)));
            &&& next.opened_with_btn1 == app.opened_with_btn1
            &&& !next.opened_with_btn2
            &&& next.opened_with_chk == app.opened_with_chk
            &&& next.opened_with_tog == app.opened_with_tog
            &&& next.opened_with_timer == app.opened_with_timer
            &&& next.is_checked == app.is_checked
            &&& next.is_togged == app.is_togged
            &&& next.state == app.state
        }),
{
}

/// Any other dismissal (an id with another name, or no id) closes every
/// popup and clears the checkbox and the toggler; the timer keeps running
/// or stays idle.
pub proof fn lemma_other_dismissal_closes_all(app: App, id: Option<WidgetId>)
    requires
        match id {
            Some(i) => i@ != "btn_popup_2"@,
            None => true,
        },
    ensures
        ({
            let next = app.after(Message::ClickedOutside(id));
            &&& !next.opened_with_btn1
            &&& !next.opened_with_btn2
            &&& !next.opened_with_chk
            &&& !next.opened_with_tog
            &&& !next.opened_with_timer
            &&& !next.is_checked
            &&& !next.is_togged
            &&& next.state == app.state
        }),
{
}

/// The checkbox and toggler popups follow their controls: this holds of the
/// initial state and every message keeps it.
pub proof fn lemma_controls_agree(app: App, message: Message)
    requires
        app.controls_agree(),
    ensures
        App::closed(State::Idle).controls_agree(),
        app.after(message).controls_agree(),
{
}

} // verus!
