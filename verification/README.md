# popup

A popup overlay widget for iced, with its decision logic verified by Verus.

- `src/` is the verified library: the placement side of each `Position`,
  the open/close hook state machine (`PopupState::sync`), the reaction of
  the open overlay to clicks, Escape and Tab (`overlay_response`), the
  popup's plain settings (`PopupOptions`), and the demonstration
  application's state machine (`App::update`), with proof functions for the
  properties they keep.
- `app/` is the iced program: the `Popup` widget itself (its `Widget` and
  `Overlay` impls, drawing, and the pixel arithmetic of the layout), and the
  demonstration's views.
- `tests/` runs the library on concrete values.
