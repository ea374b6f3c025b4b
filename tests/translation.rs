use interactive_test::chars::is_private_use_character;
use interactive_test::event::{
    cursor_position, window_event, Event, KeyboardEvent, Logical, MouseEvent, PhysicalSize,
    PlatformEvent, WindowEvent,
};
use interactive_test::keys::{key_code, KeyCode, VirtualKeyCode};
use interactive_test::modifiers::{modifiers_state, ModifiersState, PlatformModifiers, ALT, CTRL, LOGO, SHIFT};
use interactive_test::mouse::{
    mouse_button, mouse_interaction, Button, CursorIcon, ElementState, Interaction, MouseButton,
    ScrollDelta,
};

type Platform = PlatformEvent<(f64, f64), String>;
type Ui = Event<(f64, f64), String, f64>;

fn translate(e: Platform, m: PlatformModifiers) -> Option<Ui> {
    window_event(e, 2.0, m)
}

fn no_modifiers() -> PlatformModifiers {
    PlatformModifiers::empty()
}

fn key(v: VirtualKeyCode, state: ElementState) -> Platform {
    PlatformEvent::KeyboardInput { virtual_keycode: Some(v), state }
}

#[test]
fn mapped_key_press_carries_key_and_modifiers() {
    let m = PlatformModifiers { bits: SHIFT | CTRL };
    let expected = ModifiersState { shift: true, control: true, alt: false, logo: false };
    assert_eq!(
        translate(key(VirtualKeyCode::A, ElementState::Pressed), m),
        Some(Event::Keyboard(KeyboardEvent::KeyPressed { key_code: KeyCode::A, modifiers: expected }))
    );
    assert_eq!(
        translate(key(VirtualKeyCode::F12, ElementState::Released), m),
        Some(Event::Keyboard(KeyboardEvent::KeyReleased { key_code: KeyCode::F12, modifiers: expected }))
    );
}

#[test]
fn renamed_keys_map_to_their_counterparts() {
    assert_eq!(key_code(VirtualKeyCode::Back), Some(KeyCode::Backspace));
    assert_eq!(key_code(VirtualKeyCode::Return), Some(KeyCode::Enter));
    assert_eq!(key_code(VirtualKeyCode::NumpadAdd), Some(KeyCode::NumpadAdd));
    assert_eq!(key_code(VirtualKeyCode::Key0), Some(KeyCode::Key0));
    assert_eq!(key_code(VirtualKeyCode::Cut), Some(KeyCode::Cut));
}

#[test]
fn unmapped_keys_give_no_event() {
    assert_eq!(key_code(VirtualKeyCode::Asterisk), None);
    assert_eq!(key_code(VirtualKeyCode::Plus), None);
    assert_eq!(translate(key(VirtualKeyCode::Asterisk, ElementState::Pressed), no_modifiers()), None);
    assert_eq!(translate(key(VirtualKeyCode::Plus, ElementState::Released), no_modifiers()), None);
    let unknown: Platform =
        PlatformEvent::KeyboardInput { virtual_keycode: None, state: ElementState::Pressed };
    assert_eq!(translate(unknown, no_modifiers()), None);
}

#[test]
fn private_use_characters_are_dropped() {
    for c in ['\u{E000}', '\u{F8FF}', '\u{F0000}', '\u{FFFFD}', '\u{100000}', '\u{10FFFD}'] {
        assert!(is_private_use_character(c));
        assert_eq!(translate(PlatformEvent::ReceivedCharacter(c), no_modifiers()), None);
    }
}

#[test]
fn ordinary_characters_are_received() {
    for c in ['A', '\u{F900}', '\u{EFFFF}', '\u{FFFFE}', '\u{10FFFE}'] {
        assert!(!is_private_use_character(c));
        assert_eq!(
            translate(PlatformEvent::ReceivedCharacter(c), no_modifiers()),
            Some(Event::Keyboard(KeyboardEvent::CharacterReceived(c)))
        );
    }
}

#[test]
fn resize_and_cursor_carry_the_scale_factor() {
    let size = PhysicalSize { width: 800, height: 600 };
    let r = translate(PlatformEvent::Resized(size), no_modifiers());
    assert_eq!(r, Some(Event::Window(WindowEvent::Resized(Logical { physical: size, scale: 2.0 }))));
    if let Some(Event::Window(WindowEvent::Resized(l))) = r {
        assert_eq!(l.physical.width as f64 / l.scale, 400.0);
        assert_eq!(l.physical.height as f64 / l.scale, 300.0);
    }
    let moved = translate(PlatformEvent::CursorMoved((100.0, 50.0)), no_modifiers());
    assert_eq!(
        moved,
        Some(Event::Mouse(MouseEvent::CursorMoved(Logical { physical: (100.0, 50.0), scale: 2.0 })))
    );
    if let Some(Event::Mouse(MouseEvent::CursorMoved(l))) = moved {
        assert_eq!((l.physical.0 / l.scale, l.physical.1 / l.scale), (50.0, 25.0));
    }
    assert_eq!(cursor_position((4.0, 6.0), 2.0), Logical { physical: (4.0, 6.0), scale: 2.0 });
}

#[test]
fn scale_factor_change_is_a_resize() {
    let size = PhysicalSize { width: 1024, height: 768 };
    assert_eq!(
        translate(PlatformEvent::ScaleFactorChanged { new_inner_size: size }, no_modifiers()),
        Some(Event::Window(WindowEvent::Resized(Logical { physical: size, scale: 2.0 })))
    );
}

#[test]
fn translating_twice_gives_the_same_event() {
    let events: Vec<Platform> = vec![
        PlatformEvent::CursorMoved((3.0, 9.0)),
        key(VirtualKeyCode::Z, ElementState::Pressed),
        PlatformEvent::DroppedFile("/tmp/a.txt".to_string()),
        PlatformEvent::Other,
    ];
    let m = PlatformModifiers { bits: ALT };
    for e in events {
        assert_eq!(translate(e.clone(), m), translate(e, m));
    }
}

#[test]
fn mouse_buttons_and_wheel() {
    assert_eq!(mouse_button(MouseButton::Other(7)), Button::Other(7));
    assert_eq!(mouse_button(MouseButton::Middle), Button::Middle);
    assert_eq!(
        translate(
            PlatformEvent::MouseInput { button: MouseButton::Left, state: ElementState::Pressed },
            no_modifiers()
        ),
        Some(Event::Mouse(MouseEvent::ButtonPressed(Button::Left)))
    );
    assert_eq!(
        translate(
            PlatformEvent::MouseInput { button: MouseButton::Right, state: ElementState::Released },
            no_modifiers()
        ),
        Some(Event::Mouse(MouseEvent::ButtonReleased(Button::Right)))
    );
    assert_eq!(
        translate(PlatformEvent::MouseWheel(ScrollDelta::Pixels((10.0, -4.0))), no_modifiers()),
        Some(Event::Mouse(MouseEvent::WheelScrolled(ScrollDelta::Pixels((10.0, -4.0)))))
    );
    assert_eq!(
        translate(PlatformEvent::MouseWheel(ScrollDelta::Lines((0.0, 1.0))), no_modifiers()),
        Some(Event::Mouse(MouseEvent::WheelScrolled(ScrollDelta::Lines((0.0, 1.0)))))
    );
}

#[test]
fn modifier_bits_unpack_into_flags() {
    let all = PlatformModifiers { bits: SHIFT | CTRL | ALT | LOGO };
    assert_eq!(
        modifiers_state(all),
        ModifiersState { shift: true, control: true, alt: true, logo: true }
    );
    assert_eq!(
        modifiers_state(PlatformModifiers { bits: LOGO }),
        ModifiersState { shift: false, control: false, alt: false, logo: true }
    );
    let sided = PlatformModifiers { bits: 0b011 };
    assert_eq!(
        modifiers_state(sided),
        ModifiersState { shift: false, control: false, alt: false, logo: false }
    );
    assert_eq!(
        translate(PlatformEvent::ModifiersChanged(PlatformModifiers { bits: CTRL }), all),
        Some(Event::Keyboard(KeyboardEvent::ModifiersChanged(ModifiersState {
            shift: false,
            control: true,
            alt: false,
            logo: false
        })))
    );
}

#[test]
fn file_events_and_others() {
    assert_eq!(
        translate(PlatformEvent::HoveredFile("x/y.png".to_string()), no_modifiers()),
        Some(Event::Window(WindowEvent::FileHovered("x/y.png".to_string())))
    );
    assert_eq!(
        translate(PlatformEvent::DroppedFile("x/y.png".to_string()), no_modifiers()),
        Some(Event::Window(WindowEvent::FileDropped("x/y.png".to_string())))
    );
    assert_eq!(
        translate(PlatformEvent::HoveredFileCancelled, no_modifiers()),
        Some(Event::Window(WindowEvent::FilesHoveredLeft))
    );
    assert_eq!(translate(PlatformEvent::CloseRequested, no_modifiers()), None);
    assert_eq!(translate(PlatformEvent::Other, no_modifiers()), None);
}

#[test]
fn each_interaction_has_its_own_cursor() {
    let all = [
        (Interaction::Idle, CursorIcon::Default),
        (Interaction::Pointer, CursorIcon::Hand),
        (Interaction::Working, CursorIcon::Progress),
        (Interaction::Grab, CursorIcon::Grab),
        (Interaction::Grabbing, CursorIcon::Grabbing),
        (Interaction::Crosshair, CursorIcon::Crosshair),
        (Interaction::Text, CursorIcon::Text),
        (Interaction::ResizingHorizontally, CursorIcon::EwResize),
        (Interaction::ResizingVertically, CursorIcon::NsResize),
    ];
    for (i, icon) in all {
        assert_eq!(mouse_interaction(i), icon);
    }
    for (a, _) in all {
        for (b, _) in all {
            assert_eq!(mouse_interaction(a) == mouse_interaction(b), a == b);
        }
    }
}
