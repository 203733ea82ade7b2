use vstd::prelude::*;

verus! {

/// What the open overlay is told about an event, as far as its own reaction
/// goes.
#[derive(Debug, Clone, Copy, PartialEq, Eq, Structural)]
pub enum OverlayInput {
    /// The left mouse button went down; the flags say whether the cursor was
    /// over the popup content and over the trigger widget.
    LeftButtonPressed { over_popup: bool, over_widget: bool },
    /// The Escape key went down.
    EscapePressed,
    /// The Tab key went down (with or without Shift).
    TabPressed,
    /// Anything else.
    Other,
}

/// How the open overlay reacts to an event. The content of the popup gets
/// the event in any case, between the two captures.
#[derive(Debug, Clone, Copy, PartialEq, Eq, Structural)]
pub struct OverlayResponse {
    /// Publish the click-outside message, with the popup's id.
    pub dismiss: bool,
    /// Capture the event before the popup content sees it.
    pub capture_before_content: bool,
    /// Capture the event after the popup content has seen it.
    pub capture_after_content: bool,
}

/// The event dismisses the popup: a left click away from both the popup
/// and its widget, or the Escape key.
pub open spec fn is_dismissal(input: OverlayInput) -> bool {
    match input {
        OverlayInput::LeftButtonPressed { over_popup, over_widget } => !over_popup && !over_widget,
        OverlayInput::EscapePressed => true,
        _ => false,
    }
}

/// The reaction of an open overlay to `input`. `dismissible` says whether the
/// popup has a click-outside handler; `focus_trap` whether Tab is kept inside
/// the popup.
///
/// A left click outside both the popup and its widget, and the Escape key,
/// publish the click-outside message, so one handler covers every way to
/// dismiss the popup; Escape is also captured. With focus trapping, Tab and
/// Shift+Tab are captured after the content has seen them.
pub fn overlay_response(input: OverlayInput, dismissible: bool, focus_trap: bool) -> (r:
    OverlayResponse)
    ensures
        r.dismiss == (dismissible && is_dismissal(input)),
        r.capture_before_content == (dismissible && input == OverlayInput::EscapePressed),
        r.capture_after_content == (focus_trap && input == OverlayInput::TabPressed),
{
    let mut r = OverlayResponse {
        dismiss: false,
        capture_before_content: false,
        capture_after_content: false,
    };
    if dismissible {
        match input {
            OverlayInput::LeftButtonPressed { over_popup, over_widget } => {
                if !over_popup && !over_widget {
                    r.dismiss = true;
                }
            },
            OverlayInput::EscapePressed => {
                r.dismiss = true;
                r.capture_before_content = true;
            },
            _ => {},
        }
    }
    if focus_trap {
        if let OverlayInput::TabPressed = input {
            r.capture_after_content = true;
        }
    }
    r
}

/// A left click on the popup or on its trigger widget never dismisses the
/// popup, whether or not it has a click-outside handler.
pub proof fn lemma_clicks_inside_keep_popup(over_popup: bool, over_widget: bool)
    requires
        over_popup || over_widget,
    ensures
        !is_dismissal(OverlayInput::LeftButtonPressed { over_popup, over_widget }),
{
}

/// Escape and a left click away from both the popup and its widget are the
/// ways to dismiss the popup; Tab and any other event never dismiss it.
pub proof fn lemma_dismissal_paths()
    ensures
        is_dismissal(OverlayInput::EscapePressed),
        is_dismissal(OverlayInput::LeftButtonPressed { over_popup: false, over_widget: false }),
        !is_dismissal(OverlayInput::TabPressed),
        !is_dismissal(OverlayInput::Other),
{
}

} // verus!
