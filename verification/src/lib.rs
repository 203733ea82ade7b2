//! Decision logic of a popup overlay widget: where the overlay sits relative
//! to its trigger widget, which open/close hook fires when the popup changes
//! state, how the open overlay reacts to clicks, Escape and Tab, and the state
//! machine of the demonstration application that shows several popups.
//!
//! Rendering, layout arithmetic on floating-point pixels and the event loop
//! live in the application around this crate.

pub mod demo;
pub mod hooks;
pub mod options;
pub mod overlay;
pub mod position;

pub use demo::{App, Message, State};
pub use hooks::{Hook, PopupState};
pub use options::{PopupOptions, WidgetId};
pub use overlay::{overlay_response, OverlayInput, OverlayResponse};
pub use position::{Anchor, Position};
