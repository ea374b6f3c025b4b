use vstd::prelude::*;

verus! {

/// A color with 8-bit alpha, red, green and blue channels.
#[derive(Clone, Copy, Debug, PartialEq, Eq, Hash, Structural)]
pub struct Color {
    pub a: u8,
    pub r: u8,
    pub g: u8,
    pub b: u8,
}

/// Opaque white.
pub open spec fn white() -> Color {
    Color { a: 255, r: 255, g: 255, b: 255 }
}

/// The application that the window shows: an empty interface on a white
/// background, used to try out input handling by hand.
#[derive(Clone, Copy, Debug, PartialEq, Eq, Structural)]
pub struct InteractiveTest {}

/// The messages that the application's interface can send.
#[derive(Clone, Copy, Debug, PartialEq, Eq, Structural)]
pub enum Message {
    NoOp,
}

impl InteractiveTest {
    pub fn new() -> (r: InteractiveTest)
        ensures
            r == (InteractiveTest {}),
    {
        InteractiveTest {}
    }

    /// The color that each frame is cleared to before the interface is drawn.
    pub fn background_color(&self) -> (r: Color)
        ensures
            r == white(),
    {
        Color { a: 255, r: 255, g: 255, b: 255 }
    }

    /// Applies a message. No message changes this application's state.
    pub fn update(&mut self, message: Message)
        ensures
            *final(self) == *old(self),
    {
        match message {
            Message::NoOp => {},
        }
    }
}

} // verus!
