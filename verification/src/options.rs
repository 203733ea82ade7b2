use vstd::prelude::*;

use crate::position::Position;

verus! {

/// The name that identifies a popup in the messages it sends, such as
/// `"btn_popup_1"`.
#[derive(Debug, Clone)]
pub struct WidgetId {
    name: String,
}

impl View for WidgetId {
    type V = Seq<char>;

    closed spec fn view(&self) -> Seq<char> {
        self.name@
    }
}

impl WidgetId {
    /// An id with the given name.
    pub fn new(name: &str) -> (r: WidgetId)
        ensures
            r@ == name@,
    {
        WidgetId { name: name.to_owned() }
    }

    /// The name of this id.
    pub fn name(&self) -> (r: &str)
        ensures
            r@ == self@,
    {
        self.name.as_str()
    }
}

impl PartialEq for WidgetId {
    fn eq(&self, other: &Self) -> (r: bool) {
        self.name == other.name
    }
}

impl vstd::std_specs::cmp::PartialEqSpecImpl for WidgetId {
    open spec fn obeys_eq_spec() -> bool {
        true
    }

    open spec fn eq_spec(&self, other: &WidgetId) -> bool {
        self@ == other@
    }
}

impl Eq for WidgetId {

}

/// The settings of a popup that its behaviour reads, apart from its
/// elements, its hooks, its style and its gap and padding in pixels.
#[derive(Debug, Clone)]
pub struct PopupOptions {
    /// The id handed to the click-outside handler.
    pub id: Option<WidgetId>,
    /// Where the content appears relative to the widget.
    pub position: Position,
    /// Whether the content is kept inside the viewport.
    pub snap_within_viewport: bool,
    /// Whether the content is shown.
    pub opened: bool,
    /// Whether Tab and Shift+Tab are kept inside the popup while it is open.
    pub focus_trap: bool,
}

impl PopupOptions {
    /// The settings of a new popup: no id, on top of the widget, snapped
    /// within the viewport, no focus trap, open as `opened` says.
    pub fn new(opened: bool) -> (r: PopupOptions)
        ensures
            r.id.is_none(),
            r.position == Position::Top,
            r.snap_within_viewport,
            r.opened == opened,
            !r.focus_trap,
    {
        PopupOptions {
            id: None,
            position: Position::Top,
            snap_within_viewport: true,
            opened,
            focus_trap: false,
        }
    }

    /// Sets the id of the popup.
    pub fn id(self, id: WidgetId) -> (r: PopupOptions)
        ensures
            r.id == Some(id),
            r.position == self.position,
            r.snap_within_viewport == self.snap_within_viewport,
            r.opened == self.opened,
            r.focus_trap == self.focus_trap,
    {
        PopupOptions { id: Some(id), ..self }
    }

    /// Sets where the content appears.
    pub fn position(self, position: Position) -> (r: PopupOptions)
        ensures
            r.id == self.id,
            r.position == position,
            r.snap_within_viewport == self.snap_within_viewport,
            r.opened == self.opened,
            r.focus_trap == self.focus_trap,
    {
        PopupOptions { position, ..self }
    }

    /// Sets whether the content is kept inside the viewport.
    pub fn snap_within_viewport(self, snap: bool) -> (r: PopupOptions)
        ensures
            r.id == self.id,
            r.position == self.position,
            r.snap_within_viewport == snap,
            r.opened == self.opened,
            r.focus_trap == self.focus_trap,
    {
        PopupOptions { snap_within_viewport: snap, ..self }
    }

    /// Sets whether the content is shown.
    pub fn opened(self, opened: bool) -> (r: PopupOptions)
        ensures
            r.id == self.id,
            r.position == self.position,
            r.snap_within_viewport == self.snap_within_viewport,
            r.opened == opened,
            r.focus_trap == self.focus_trap,
    {
        PopupOptions { opened, ..self }
    }

    /// Sets whether Tab and Shift+Tab are kept inside the open popup.
    pub fn focus_trap(self, trap: bool) -> (r: PopupOptions)
        ensures
            r.id == self.id,
            r.position == self.position,
            r.snap_within_viewport == self.snap_within_viewport,
            r.opened == self.opened,
            r.focus_trap == trap,
    {
        PopupOptions { focus_trap: trap, ..self }
    }
}

} // verus!
