use vstd::prelude::*;

use crate::chars::{is_private_use_character, private_use};
use crate::keys::{key_code, key_code_of, unmapped_key, KeyCode, VirtualKeyCode};
use crate::modifiers::{modifiers_of, modifiers_state, ModifiersState, PlatformModifiers};
use crate::mouse::{button_of, mouse_button, Button, ElementState, MouseButton, ScrollDelta};

verus! {

/// A size in device pixels.
#[derive(Clone, Copy, Debug, PartialEq, Eq, Hash, Structural)]
pub struct PhysicalSize {
    pub width: u32,
    pub height: u32,
}

/// A quantity in logical units: `physical` divided by `scale`, the number of
/// device pixels per logical pixel. The division itself belongs to whoever
/// holds the numbers; this model only says which quantity and which scale.
#[derive(Clone, Copy, Debug, PartialEq)]
pub struct Logical<T, S> {
    pub physical: T,
    pub scale: S,
}

/// Converts a position in device pixels to logical units at `scale_factor`.
pub fn cursor_position<F, S>(position: F, scale_factor: S) -> (r: Logical<F, S>)
    ensures
        r == (Logical { physical: position, scale: scale_factor }),
{
    Logical { physical: position, scale: scale_factor }
}

/// An event as the windowing system delivers it. `F` is the platform's pair
/// of coordinates (a cursor position, a wheel movement), `P` a file path.
#[derive(Clone, Debug, PartialEq)]
pub enum PlatformEvent<F, P> {
    Resized(PhysicalSize),
    ScaleFactorChanged { new_inner_size: PhysicalSize },
    /// The cursor's position in device pixels.
    CursorMoved(F),
    MouseInput { button: MouseButton, state: ElementState },
    MouseWheel(ScrollDelta<F>),
    ReceivedCharacter(char),
    KeyboardInput { virtual_keycode: Option<VirtualKeyCode>, state: ElementState },
    ModifiersChanged(PlatformModifiers),
    HoveredFile(P),
    DroppedFile(P),
    HoveredFileCancelled,
    CloseRequested,
    /// Any other kind of window event: focus, moves, touch and the like.
    Other,
}

/// What happened to the window, in the application's model.
#[derive(Clone, Debug, PartialEq)]
pub enum WindowEvent<P, S> {
    Resized(Logical<PhysicalSize, S>),
    FileHovered(P),
    FileDropped(P),
    FilesHoveredLeft,
}

/// What the mouse did, in the application's model.
#[derive(Clone, Copy, Debug, PartialEq)]
pub enum MouseEvent<F, S> {
    CursorMoved(Logical<F, S>),
    ButtonPressed(Button),
    ButtonReleased(Button),
    WheelScrolled(ScrollDelta<F>),
}

/// What the keyboard did, in the application's model.
#[derive(Clone, Copy, Debug, PartialEq, Eq, Structural)]
pub enum KeyboardEvent {
    KeyPressed { key_code: KeyCode, modifiers: ModifiersState },
    KeyReleased { key_code: KeyCode, modifiers: ModifiersState },
    CharacterReceived(char),
    ModifiersChanged(ModifiersState),
}

/// An event of the application's model.
#[derive(Clone, Debug, PartialEq)]
pub enum Event<F, P, S> {
    Window(WindowEvent<P, S>),
    Mouse(MouseEvent<F, S>),
    Keyboard(KeyboardEvent),
}

/// The key event that a key going down or up gives.
pub open spec fn key_event(state: ElementState, key_code: KeyCode, modifiers: ModifiersState) -> KeyboardEvent {
    match state {
        ElementState::Pressed => KeyboardEvent::KeyPressed { key_code, modifiers },
        ElementState::Released => KeyboardEvent::KeyReleased { key_code, modifiers },
    }
}

/// The application event, if any, that a platform event stands for, when the
/// window has `scale` device pixels per logical pixel and `m` is the set of
/// modifiers held.
pub open spec fn translate<F, P, S>(e: PlatformEvent<F, P>, scale: S, m: PlatformModifiers) -> Option<Event<F, P, S>> {
    match e {
        PlatformEvent::Resized(size) => Some(
            Event::Window(WindowEvent::Resized(Logical { physical: size, scale })),
        ),
        PlatformEvent::ScaleFactorChanged { new_inner_size } => Some(
            Event::Window(WindowEvent::Resized(Logical { physical: new_inner_size, scale })),
        ),
        PlatformEvent::CursorMoved(position) => Some(
            Event::Mouse(MouseEvent::CursorMoved(Logical { physical: position, scale })),
        ),
        PlatformEvent::MouseInput { button, state } => Some(
            Event::Mouse(
                match state {
                    ElementState::Pressed => MouseEvent::ButtonPressed(button_of(button)),
                    ElementState::Released => MouseEvent::ButtonReleased(button_of(button)),
                },
            ),
        ),
        PlatformEvent::MouseWheel(delta) => Some(Event::Mouse(MouseEvent::WheelScrolled(delta))),
        PlatformEvent::ReceivedCharacter(c) => if private_use(c) {
            None
        } else {
            Some(Event::Keyboard(KeyboardEvent::CharacterReceived(c)))
        },
        PlatformEvent::KeyboardInput { virtual_keycode, state } => match virtual_keycode {
            Some(v) => match key_code_of(v) {
                Some(k) => Some(Event::Keyboard(key_event(state, k, modifiers_of(m)))),
                None => None,
            },
            None => None,
        },
        PlatformEvent::ModifiersChanged(new_modifiers) => Some(
            Event::Keyboard(KeyboardEvent::ModifiersChanged(modifiers_of(new_modifiers))),
        ),
        PlatformEvent::HoveredFile(path) => Some(Event::Window(WindowEvent::FileHovered(path))),
        PlatformEvent::DroppedFile(path) => Some(Event::Window(WindowEvent::FileDropped(path))),
        PlatformEvent::HoveredFileCancelled => Some(Event::Window(WindowEvent::FilesHoveredLeft)),
        PlatformEvent::CloseRequested => None,
        PlatformEvent::Other => None,
    }
}

/// Translates a platform event into the application's event model. Sizes and
/// the cursor position come out in logical units at `scale_factor`; wheel
/// movements keep the platform's own unit and are not rescaled.
pub fn window_event<F, P, S>(
    event: PlatformEvent<F, P>,
    scale_factor: S,
    modifiers: PlatformModifiers,
) -> (r: Option<Event<F, P, S>>)
    ensures
        r == translate(event, scale_factor, modifiers),
{
    match event {
        PlatformEvent::Resized(new_size) => Some(
            Event::Window(
                WindowEvent::Resized(Logical { physical: new_size, scale: scale_factor }),
            ),
        ),
        PlatformEvent::ScaleFactorChanged { new_inner_size } => Some(
            Event::Window(
                WindowEvent::Resized(Logical { physical: new_inner_size, scale: scale_factor }),
            ),
        ),
        PlatformEvent::CursorMoved(position) => Some(
            Event::Mouse(MouseEvent::CursorMoved(cursor_position(position, scale_factor))),
        ),
        PlatformEvent::MouseInput { button, state } => {
            let button = mouse_button(button);
            Some(
                Event::Mouse(
                    match state {
                        ElementState::Pressed => MouseEvent::ButtonPressed(button),
                        ElementState::Released => MouseEvent::ButtonReleased(button),
                    },
                ),
            )
        },
        PlatformEvent::MouseWheel(delta) => Some(Event::Mouse(MouseEvent::WheelScrolled(delta))),
        PlatformEvent::ReceivedCharacter(c) => {
            if is_private_use_character(c) {
                None
            } else {
                Some(Event::Keyboard(KeyboardEvent::CharacterReceived(c)))
            }
        },
        PlatformEvent::KeyboardInput { virtual_keycode: Some(virtual_keycode), state } => {
            match key_code(virtual_keycode) {
                Some(key_code) => {
                    let modifiers = modifiers_state(modifiers);
                    Some(
                        Event::Keyboard(
                            match state {
                                ElementState::Pressed => KeyboardEvent::KeyPressed {
                                    key_code,
                                    modifiers,
                                },
                                ElementState::Released => KeyboardEvent::KeyReleased {
                                    key_code,
                                    modifiers,
                                },
                            },
                        ),
                    )
                },
                None => None,
            }
        },
        PlatformEvent::KeyboardInput { virtual_keycode: None, .. } => None,
        PlatformEvent::ModifiersChanged(new_modifiers) => Some(
            Event::Keyboard(KeyboardEvent::ModifiersChanged(modifiers_state(new_modifiers))),
        ),
        PlatformEvent::HoveredFile(path) => Some(Event::Window(WindowEvent::FileHovered(path))),
        PlatformEvent::DroppedFile(path) => Some(Event::Window(WindowEvent::FileDropped(path))),
        PlatformEvent::HoveredFileCancelled => Some(Event::Window(WindowEvent::FilesHoveredLeft)),
        PlatformEvent::CloseRequested => None,
        PlatformEvent::Other => None,
    }
}

/// A key going down or up gives the matching key event, with the application
/// key that stands for the platform key and the modifiers held, for every
/// platform key but the two that have no application key; those give nothing.
pub proof fn lemma_key_events<F, P, S>(v: VirtualKeyCode, state: ElementState, scale: S, m: PlatformModifiers)
    ensures
        unmapped_key(v) ==> translate(
            PlatformEvent::<F, P>::KeyboardInput { virtual_keycode: Some(v), state },
            scale,
            m,
        ) is None,
        !unmapped_key(v) ==> key_code_of(v) is Some && translate(
            PlatformEvent::<F, P>::KeyboardInput { virtual_keycode: Some(v), state },
            scale,
            m,
        ) == Some(Event::<F, P, S>::Keyboard(key_event(state, key_code_of(v)->0, modifiers_of(m)))),
{
}

/// A character of a private-use area never reaches the application; any
/// other character arrives as it is.
pub proof fn lemma_private_use_characters_dropped<F, P, S>(c: char, scale: S, m: PlatformModifiers)
    ensures
        private_use(c) ==> translate(PlatformEvent::<F, P>::ReceivedCharacter(c), scale, m) is None,
        !private_use(c) ==> translate(PlatformEvent::<F, P>::ReceivedCharacter(c), scale, m)
            == Some(Event::<F, P, S>::Keyboard(KeyboardEvent::CharacterReceived(c))),
{
}

/// Translation depends on nothing but the event, the scale factor and the
/// modifiers: the same three always give the same application event.
pub proof fn lemma_translation_deterministic<F, P, S>(
    e1: PlatformEvent<F, P>,
    e2: PlatformEvent<F, P>,
    scale: S,
    m: PlatformModifiers,
)
    requires
        e1 == e2,
    ensures
        translate(e1, scale, m) == translate(e2, scale, m),
{
}

} // verus!
