use interactive_test::event::{Event, KeyboardEvent, Logical, MouseEvent, PhysicalSize, PlatformEvent, WindowEvent};
use interactive_test::frame_loop::{Control, FrameLoop, Viewport};
use interactive_test::keys::{KeyCode, VirtualKeyCode};
use interactive_test::modifiers::{ModifiersState, PlatformModifiers, SHIFT};
use interactive_test::mouse::ElementState;
use interactive_test::pixels::{convert_pixel, convert_pixels, Bgra};
use interactive_test::program::{Color, InteractiveTest, Message};

type Loop = FrameLoop<(f64, f64), String, f64>;

fn fresh() -> Loop {
    let size = PhysicalSize { width: 640, height: 480 };
    FrameLoop::new(Viewport::with_physical_size(size, 1.0), (-1.0, -1.0))
}

#[test]
fn batch_is_handed_out_once_in_arrival_order() {
    let mut l = fresh();
    assert!(l.is_queue_empty());
    assert_eq!(l.events_cleared(), None);
    let shift = PlatformModifiers { bits: SHIFT };
    let events: Vec<PlatformEvent<(f64, f64), String>> = vec![
        PlatformEvent::CursorMoved((10.0, 20.0)),
        PlatformEvent::Other,
        PlatformEvent::ModifiersChanged(shift),
        PlatformEvent::KeyboardInput {
            virtual_keycode: Some(VirtualKeyCode::Q),
            state: ElementState::Pressed,
        },
        PlatformEvent::ReceivedCharacter('\u{E001}'),
        PlatformEvent::ReceivedCharacter('q'),
    ];
    let n = events.len();
    for e in events {
        assert_eq!(l.handle_window_event(e, 1.0), Control::Wait);
    }
    let held = ModifiersState { shift: true, control: false, alt: false, logo: false };
    let batch = l.events_cleared().unwrap();
    assert!(batch.len() <= n);
    assert_eq!(
        batch,
        vec![
            Event::Mouse(MouseEvent::CursorMoved(Logical { physical: (10.0, 20.0), scale: 1.0 })),
            Event::Keyboard(KeyboardEvent::ModifiersChanged(held)),
            Event::Keyboard(KeyboardEvent::KeyPressed { key_code: KeyCode::Q, modifiers: held }),
            Event::Keyboard(KeyboardEvent::CharacterReceived('q')),
        ]
    );
    assert!(l.is_queue_empty());
    assert_eq!(l.events_cleared(), None);
    assert_eq!(l.cursor_position, (10.0, 20.0));
    assert_eq!(l.modifiers, shift);
    assert_eq!(l.logical_cursor_position(), Logical { physical: (10.0, 20.0), scale: 1.0 });
}

#[test]
fn many_resizes_reallocate_once() {
    let mut l = fresh();
    assert_eq!(l.redraw(), None);
    let first = PhysicalSize { width: 800, height: 600 };
    let last = PhysicalSize { width: 1000, height: 700 };
    l.handle_window_event(PlatformEvent::Resized(first), 2.0);
    l.handle_window_event(PlatformEvent::CursorMoved((1.0, 1.0)), 2.0);
    l.handle_window_event(PlatformEvent::Resized(last), 2.0);
    l.handle_window_event(PlatformEvent::CursorMoved((2.0, 2.0)), 2.0);
    assert!(l.resized);
    assert_eq!(l.viewport.logical_size(), Logical { physical: last, scale: 2.0 });
    let batch = l.events_cleared().unwrap();
    assert_eq!(batch[0], Event::Window(WindowEvent::Resized(Logical { physical: first, scale: 2.0 })));
    assert_eq!(l.redraw(), Some(last));
    assert_eq!(l.redraw(), None);
    assert!(!l.resized);
}

#[test]
fn close_request_exits() {
    let mut l = fresh();
    assert_eq!(l.handle_window_event(PlatformEvent::CloseRequested, 1.0), Control::Exit);
    assert!(l.is_queue_empty());
}

#[test]
fn pixels_change_layout_only() {
    assert_eq!(convert_pixel(0x11223344), Bgra { b: 0x44, g: 0x33, r: 0x22, a: 0x11 });
    assert_eq!(convert_pixel(0xFF000000), Bgra { b: 0, g: 0, r: 0, a: 0xFF });
    let frame = vec![0x01020304u32, 0xFFFFFFFF, 0];
    assert_eq!(
        convert_pixels(&frame),
        vec![
            Bgra { b: 4, g: 3, r: 2, a: 1 },
            Bgra { b: 255, g: 255, r: 255, a: 255 },
            Bgra { b: 0, g: 0, r: 0, a: 0 },
        ]
    );
    assert_eq!(convert_pixels(&Vec::new()), Vec::new());
}

#[test]
fn placeholder_application() {
    let mut p = InteractiveTest::new();
    p.update(Message::NoOp);
    assert_eq!(p, InteractiveTest::new());
    assert_eq!(p.background_color(), Color { a: 255, r: 255, g: 255, b: 255 });
}

#[test]
fn scale_change_replaces_viewport_and_reallocates() {
    let mut l = fresh();
    let size = PhysicalSize { width: 1280, height: 960 };
    l.handle_window_event(PlatformEvent::ScaleFactorChanged { new_inner_size: size }, 2.0);
    assert_eq!(l.viewport, Viewport::with_physical_size(size, 2.0));
    assert_eq!(
        l.events_cleared(),
        Some(vec![Event::Window(WindowEvent::Resized(Logical { physical: size, scale: 2.0 }))])
    );
    assert_eq!(l.redraw(), Some(size));
    assert_eq!(l.redraw(), None);
}
