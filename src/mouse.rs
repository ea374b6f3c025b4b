use vstd::prelude::*;

verus! {

/// A mouse button as the windowing system reports it.
#[derive(Clone, Copy, Debug, PartialEq, Eq, Hash, Structural)]
pub enum MouseButton {
    Left,
    Right,
    Middle,
    Other(u16),
}

/// A mouse button in the application's event model.
#[derive(Clone, Copy, Debug, PartialEq, Eq, Hash, Structural)]
pub enum Button {
    Left,
    Right,
    Middle,
    Other(u16),
}

/// The button of the same name; a numbered button keeps its number.
pub open spec fn button_of(b: MouseButton) -> Button {
    match b {
        MouseButton::Left => Button::Left,
        MouseButton::Right => Button::Right,
        MouseButton::Middle => Button::Middle,
        MouseButton::Other(n) => Button::Other(n),
    }
}

/// Maps a platform mouse button to the application's button.
pub fn mouse_button(button: MouseButton) -> (r: Button)
    ensures
        r == button_of(button),
{
    match button {
        MouseButton::Left => Button::Left,
        MouseButton::Right => Button::Right,
        MouseButton::Middle => Button::Middle,
        MouseButton::Other(other) => Button::Other(other),
    }
}

/// The cursor appearance that the application's interface asks for.
#[derive(Clone, Copy, Debug, PartialEq, Eq, Hash, Structural)]
pub enum Interaction {
    Idle,
    Pointer,
    Grab,
    Text,
    Crosshair,
    Working,
    Grabbing,
    ResizingHorizontally,
    ResizingVertically,
}

/// A cursor shape that the windowing system can show.
#[derive(Clone, Copy, Debug, PartialEq, Eq, Hash, Structural)]
pub enum CursorIcon {
    Default,
    Crosshair,
    Hand,
    Arrow,
    Move,
    Text,
    Wait,
    Help,
    Progress,
    NotAllowed,
    ContextMenu,
    Cell,
    VerticalText,
    Alias,
    Copy,
    NoDrop,
    Grab,
    Grabbing,
    AllScroll,
    ZoomIn,
    ZoomOut,
    EResize,
    NResize,
    NeResize,
    NwResize,
    SResize,
    SeResize,
    SwResize,
    WResize,
    EwResize,
    NsResize,
    NeswResize,
    NwseResize,
    ColResize,
    RowResize,
}

/// The cursor shape shown for each interaction.
pub open spec fn cursor_icon_of(i: Interaction) -> CursorIcon {
    match i {
        Interaction::Idle => CursorIcon::Default,
        Interaction::Pointer => CursorIcon::Hand,
        Interaction::Working => CursorIcon::Progress,
        Interaction::Grab => CursorIcon::Grab,
        Interaction::Grabbing => CursorIcon::Grabbing,
        Interaction::Crosshair => CursorIcon::Crosshair,
        Interaction::Text => CursorIcon::Text,
        Interaction::ResizingHorizontally => CursorIcon::EwResize,
        Interaction::ResizingVertically => CursorIcon::NsResize,
    }
}

/// Maps the interface's interaction to the cursor shape to set on the window.
pub fn mouse_interaction(interaction: Interaction) -> (r: CursorIcon)
    ensures
        r == cursor_icon_of(interaction),
{
    match interaction {
        Interaction::Idle => CursorIcon::Default,
        Interaction::Pointer => CursorIcon::Hand,
        Interaction::Working => CursorIcon::Progress,
        Interaction::Grab => CursorIcon::Grab,
        Interaction::Grabbing => CursorIcon::Grabbing,
        Interaction::Crosshair => CursorIcon::Crosshair,
        Interaction::Text => CursorIcon::Text,
        Interaction::ResizingHorizontally => CursorIcon::EwResize,
        Interaction::ResizingVertically => CursorIcon::NsResize,
    }
}

/// Distinct interactions are shown with distinct cursor shapes, so the shape
/// on screen always tells which interaction the interface asked for.
pub proof fn lemma_cursor_icons_distinct(a: Interaction, b: Interaction)
    ensures
        cursor_icon_of(a) == cursor_icon_of(b) <==> a == b,
{
}

/// Whether a button or a key went down or came up.
#[derive(Clone, Copy, Debug, PartialEq, Eq, Hash, Structural)]
pub enum ElementState {
    Pressed,
    Released,
}

/// How far the wheel turned: in lines, or in pixels, each with the
/// platform's own measure `F` of the two axes.
#[derive(Clone, Copy, Debug, PartialEq, Eq, Hash)]
pub enum ScrollDelta<F> {
    Lines(F),
    Pixels(F),
}

} // verus!
