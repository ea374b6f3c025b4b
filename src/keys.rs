use vstd::prelude::*;

verus! {

/// The identity of a key as the windowing system reports it.
#[derive(Clone, Copy, Debug, PartialEq, Eq, Hash, Structural)]
pub enum VirtualKeyCode {
    Key1,
    Key2,
    Key3,
    Key4,
    Key5,
    Key6,
    Key7,
    Key8,
    Key9,
    Key0,
    A,
    B,
    C,
    D,
    E,
    F,
    G,
    H,
    I,
    J,
    K,
    L,
    M,
    N,
    O,
    P,
    Q,
    R,
    S,
    T,
    U,
    V,
    W,
    X,
    Y,
    Z,
    Escape,
    F1,
    F2,
    F3,
    F4,
    F5,
    F6,
    F7,
    F8,
    F9,
    F10,
    F11,
    F12,
    F13,
    F14,
    F15,
    F16,
    F17,
    F18,
    F19,
    F20,
    F21,
    F22,
    F23,
    F24,
    Snapshot,
    Scroll,
    Pause,
    Insert,
    Home,
    Delete,
    End,
    PageDown,
    PageUp,
    Left,
    Up,
    Right,
    Down,
    Back,
    Return,
    Space,
    Compose,
    Caret,
    Numlock,
    Numpad0,
    Numpad1,
    Numpad2,
    Numpad3,
    Numpad4,
    Numpad5,
    Numpad6,
    Numpad7,
    Numpad8,
    Numpad9,
    NumpadAdd,
    NumpadDivide,
    NumpadDecimal,
    NumpadComma,
    NumpadEnter,
    NumpadEquals,
    NumpadMultiply,
    NumpadSubtract,
    AbntC1,
    AbntC2,
    Apostrophe,
    Apps,
    Asterisk,
    At,
    Ax,
    Backslash,
    Calculator,
    Capital,
    Colon,
    Comma,
    Convert,
    Equals,
    Grave,
    Kana,
    Kanji,
    LAlt,
    LBracket,
    LControl,
    LShift,
    LWin,
    Mail,
    MediaSelect,
    MediaStop,
    Minus,
    Mute,
    MyComputer,
    NavigateForward,
    NavigateBackward,
    NextTrack,
    NoConvert,
    OEM102,
    Period,
    PlayPause,
    Plus,
    Power,
    PrevTrack,
    RAlt,
    RBracket,
    RControl,
    RShift,
    RWin,
    Semicolon,
    Slash,
    Sleep,
    Stop,
    Sysrq,
    Tab,
    Underline,
    Unlabeled,
    VolumeDown,
    VolumeUp,
    Wake,
    WebBack,
    WebFavorites,
    WebForward,
    WebHome,
    WebRefresh,
    WebSearch,
    WebStop,
    Yen,
    Copy,
    Paste,
    Cut,
}

/// The identity of a key in the application's event model.
#[derive(Clone, Copy, Debug, PartialEq, Eq, Hash, Structural)]
pub enum KeyCode {
    Key1,
    Key2,
    Key3,
    Key4,
    Key5,
    Key6,
    Key7,
    Key8,
    Key9,
    Key0,
    A,
    B,
    C,
    D,
    E,
    F,
    G,
    H,
    I,
    J,
    K,
    L,
    M,
    N,
    O,
    P,
    Q,
    R,
    S,
    T,
    U,
    V,
    W,
    X,
    Y,
    Z,
    Escape,
    F1,
    F2,
    F3,
    F4,
    F5,
    F6,
    F7,
    F8,
    F9,
    F10,
    F11,
    F12,
    F13,
    F14,
    F15,
    F16,
    F17,
    F18,
    F19,
    F20,
    F21,
    F22,
    F23,
    F24,
    Snapshot,
    Scroll,
    Pause,
    Insert,
    Home,
    Delete,
    End,
    PageDown,
    PageUp,
    Left,
    Up,
    Right,
    Down,
    Backspace,
    Enter,
    Space,
    Compose,
    Caret,
    Numlock,
    Numpad0,
    Numpad1,
    Numpad2,
    Numpad3,
    Numpad4,
    Numpad5,
    Numpad6,
    Numpad7,
    Numpad8,
    Numpad9,
    NumpadAdd,
    NumpadDivide,
    NumpadDecimal,
    NumpadComma,
    NumpadEnter,
    NumpadEquals,
    NumpadMultiply,
    NumpadSubtract,
    AbntC1,
    AbntC2,
    Apostrophe,
    Apps,
    Asterisk,
    At,
    Ax,
    Backslash,
    Calculator,
    Capital,
    Colon,
    Comma,
    Convert,
    Equals,
    Grave,
    Kana,
    Kanji,
    LAlt,
    LBracket,
    LControl,
    LShift,
    LWin,
    Mail,
    MediaSelect,
    MediaStop,
    Minus,
    Mute,
    MyComputer,
    NavigateForward,
    NavigateBackward,
    NextTrack,
    NoConvert,
    OEM102,
    Period,
    PlayPause,
    Plus,
    Power,
    PrevTrack,
    RAlt,
    RBracket,
    RControl,
    RShift,
    RWin,
    Semicolon,
    Slash,
    Sleep,
    Stop,
    Sysrq,
    Tab,
    Underline,
    Unlabeled,
    VolumeDown,
    VolumeUp,
    Wake,
    WebBack,
    WebFavorites,
    WebForward,
    WebHome,
    WebRefresh,
    WebSearch,
    WebStop,
    Yen,
    Copy,
    Paste,
    Cut,
}

/// The application key that a platform key stands for: the key of the same
/// name, where `Back` is `Backspace` and `Return` is `Enter`. `Asterisk` and
/// `Plus` are left out on purpose: what they stand for is not stable across
/// platforms, so they give no key code.
pub open spec fn key_code_of(v: VirtualKeyCode) -> Option<KeyCode> {
    match v {
        VirtualKeyCode::Key1 => Some(KeyCode::Key1),
        VirtualKeyCode::Key2 => Some(KeyCode::Key2),
        VirtualKeyCode::Key3 => Some(KeyCode::Key3),
        VirtualKeyCode::Key4 => Some(KeyCode::Key4),
        VirtualKeyCode::Key5 => Some(KeyCode::Key5),
        VirtualKeyCode::Key6 => Some(KeyCode::Key6),
        VirtualKeyCode::Key7 => Some(KeyCode::Key7),
        VirtualKeyCode::Key8 => Some(KeyCode::Key8),
        VirtualKeyCode::Key9 => Some(KeyCode::Key9),
        VirtualKeyCode::Key0 => Some(KeyCode::Key0),
        VirtualKeyCode::A => Some(KeyCode::A),
        VirtualKeyCode::B => Some(KeyCode::B),
        VirtualKeyCode::C => Some(KeyCode::C),
        VirtualKeyCode::D => Some(KeyCode::D),
        VirtualKeyCode::E => Some(KeyCode::E),
        VirtualKeyCode::F => Some(KeyCode::F),
        VirtualKeyCode::G => Some(KeyCode::G),
        VirtualKeyCode::H => Some(KeyCode::H),
        VirtualKeyCode::I => Some(KeyCode::I),
        VirtualKeyCode::J => Some(KeyCode::J),
        VirtualKeyCode::K => Some(KeyCode::K),
        VirtualKeyCode::L => Some(KeyCode::L),
        VirtualKeyCode::M => Some(KeyCode::M),
        VirtualKeyCode::N => Some(KeyCode::N),
        VirtualKeyCode::O => Some(KeyCode::O),
        VirtualKeyCode::P => Some(KeyCode::P),
        VirtualKeyCode::Q => Some(KeyCode::Q),
        VirtualKeyCode::R => Some(KeyCode::R),
        VirtualKeyCode::S => Some(KeyCode::S),
        VirtualKeyCode::T => Some(KeyCode::T),
        VirtualKeyCode::U => Some(KeyCode::U),
        VirtualKeyCode::V => Some(KeyCode::V),
        VirtualKeyCode::W => Some(KeyCode::W),
        VirtualKeyCode::X => Some(KeyCode::X),
        VirtualKeyCode::Y => Some(KeyCode::Y),
        VirtualKeyCode::Z => Some(KeyCode::Z),
        VirtualKeyCode::Escape => Some(KeyCode::Escape),
        VirtualKeyCode::F1 => Some(KeyCode::F1),
        VirtualKeyCode::F2 => Some(KeyCode::F2),
        VirtualKeyCode::F3 => Some(KeyCode::F3),
        VirtualKeyCode::F4 => Some(KeyCode::F4),
        VirtualKeyCode::F5 => Some(KeyCode::F5),
        VirtualKeyCode::F6 => Some(KeyCode::F6),
        VirtualKeyCode::F7 => Some(KeyCode::F7),
        VirtualKeyCode::F8 => Some(KeyCode::F8),
        VirtualKeyCode::F9 => Some(KeyCode::F9),
        VirtualKeyCode::F10 => Some(KeyCode::F10),
        VirtualKeyCode::F11 => Some(KeyCode::F11),
        VirtualKeyCode::F12 => Some(KeyCode::F12),
        VirtualKeyCode::F13 => Some(KeyCode::F13),
        VirtualKeyCode::F14 => Some(KeyCode::F14),
        VirtualKeyCode::F15 => Some(KeyCode::F15),
        VirtualKeyCode::F16 => Some(KeyCode::F16),
        VirtualKeyCode::F17 => Some(KeyCode::F17),
        VirtualKeyCode::F18 => Some(KeyCode::F18),
        VirtualKeyCode::F19 => Some(KeyCode::F19),
        VirtualKeyCode::F20 => Some(KeyCode::F20),
        VirtualKeyCode::F21 => Some(KeyCode::F21),
        VirtualKeyCode::F22 => Some(KeyCode::F22),
        VirtualKeyCode::F23 => Some(KeyCode::F23),
        VirtualKeyCode::F24 => Some(KeyCode::F24),
        VirtualKeyCode::Snapshot => Some(KeyCode::Snapshot),
        VirtualKeyCode::Scroll => Some(KeyCode::Scroll),
        VirtualKeyCode::Pause => Some(KeyCode::Pause),
        VirtualKeyCode::Insert => Some(KeyCode::Insert),
        VirtualKeyCode::Home => Some(KeyCode::Home),
        VirtualKeyCode::Delete => Some(KeyCode::Delete),
        VirtualKeyCode::End => Some(KeyCode::End),
        VirtualKeyCode::PageDown => Some(KeyCode::PageDown),
        VirtualKeyCode::PageUp => Some(KeyCode::PageUp),
        VirtualKeyCode::Left => Some(KeyCode::Left),
        VirtualKeyCode::Up => Some(KeyCode::Up),
        VirtualKeyCode::Right => Some(KeyCode::Right),
        VirtualKeyCode::Down => Some(KeyCode::Down),
        VirtualKeyCode::Back => Some(KeyCode::Backspace),
        VirtualKeyCode::Return => Some(KeyCode::Enter),
        VirtualKeyCode::Space => Some(KeyCode::Space),
        VirtualKeyCode::Compose => Some(KeyCode::Compose),
        VirtualKeyCode::Caret => Some(KeyCode::Caret),
        VirtualKeyCode::Numlock => Some(KeyCode::Numlock),
        VirtualKeyCode::Numpad0 => Some(KeyCode::Numpad0),
        VirtualKeyCode::Numpad1 => Some(KeyCode::Numpad1),
        VirtualKeyCode::Numpad2 => Some(KeyCode::Numpad2),
        VirtualKeyCode::Numpad3 => Some(KeyCode::Numpad3),
        VirtualKeyCode::Numpad4 => Some(KeyCode::Numpad4),
        VirtualKeyCode::Numpad5 => Some(KeyCode::Numpad5),
        VirtualKeyCode::Numpad6 => Some(KeyCode::Numpad6),
        VirtualKeyCode::Numpad7 => Some(KeyCode::Numpad7),
        VirtualKeyCode::Numpad8 => Some(KeyCode::Numpad8),
        VirtualKeyCode::Numpad9 => Some(KeyCode::Numpad9),
        VirtualKeyCode::NumpadAdd => Some(KeyCode::NumpadAdd),
        VirtualKeyCode::NumpadDivide => Some(KeyCode::NumpadDivide),
        VirtualKeyCode::NumpadDecimal => Some(KeyCode::NumpadDecimal),
        VirtualKeyCode::NumpadComma => Some(KeyCode::NumpadComma),
        VirtualKeyCode::NumpadEnter => Some(KeyCode::NumpadEnter),
        VirtualKeyCode::NumpadEquals => Some(KeyCode::NumpadEquals),
        VirtualKeyCode::NumpadMultiply => Some(KeyCode::NumpadMultiply),
        VirtualKeyCode::NumpadSubtract => Some(KeyCode::NumpadSubtract),
        VirtualKeyCode::AbntC1 => Some(KeyCode::AbntC1),
        VirtualKeyCode::AbntC2 => Some(KeyCode::AbntC2),
        VirtualKeyCode::Apostrophe => Some(KeyCode::Apostrophe),
        VirtualKeyCode::Apps => Some(KeyCode::Apps),
        VirtualKeyCode::At => Some(KeyCode::At),
        VirtualKeyCode::Ax => Some(KeyCode::Ax),
        VirtualKeyCode::Backslash => Some(KeyCode::Backslash),
        VirtualKeyCode::Calculator => Some(KeyCode::Calculator),
        VirtualKeyCode::Capital => Some(KeyCode::Capital),
        VirtualKeyCode::Colon => Some(KeyCode::Colon),
        VirtualKeyCode::Comma => Some(KeyCode::Comma),
        VirtualKeyCode::Convert => Some(KeyCode::Convert),
        VirtualKeyCode::Equals => Some(KeyCode::Equals),
        VirtualKeyCode::Grave => Some(KeyCode::Grave),
        VirtualKeyCode::Kana => Some(KeyCode::Kana),
        VirtualKeyCode::Kanji => Some(KeyCode::Kanji),
        VirtualKeyCode::LAlt => Some(KeyCode::LAlt),
        VirtualKeyCode::LBracket => Some(KeyCode::LBracket),
        VirtualKeyCode::LControl => Some(KeyCode::LControl),
        VirtualKeyCode::LShift => Some(KeyCode::LShift),
        VirtualKeyCode::LWin => Some(KeyCode::LWin),
        VirtualKeyCode::Mail => Some(KeyCode::Mail),
        VirtualKeyCode::MediaSelect => Some(KeyCode::MediaSelect),
        VirtualKeyCode::MediaStop => Some(KeyCode::MediaStop),
        VirtualKeyCode::Minus => Some(KeyCode::Minus),
        VirtualKeyCode::Mute => Some(KeyCode::Mute),
        VirtualKeyCode::MyComputer => Some(KeyCode::MyComputer),
        VirtualKeyCode::NavigateForward => Some(KeyCode::NavigateForward),
        VirtualKeyCode::NavigateBackward => Some(KeyCode::NavigateBackward),
        VirtualKeyCode::NextTrack => Some(KeyCode::NextTrack),
        VirtualKeyCode::NoConvert => Some(KeyCode::NoConvert),
        VirtualKeyCode::OEM102 => Some(KeyCode::OEM102),
        VirtualKeyCode::Period => Some(KeyCode::Period),
        VirtualKeyCode::PlayPause => Some(KeyCode::PlayPause),
        VirtualKeyCode::Power => Some(KeyCode::Power),
        VirtualKeyCode::PrevTrack => Some(KeyCode::PrevTrack),
        VirtualKeyCode::RAlt => Some(KeyCode::RAlt),
        VirtualKeyCode::RBracket => Some(KeyCode::RBracket),
        VirtualKeyCode::RControl => Some(KeyCode::RControl),
        VirtualKeyCode::RShift => Some(KeyCode::RShift),
        VirtualKeyCode::RWin => Some(KeyCode::RWin),
        VirtualKeyCode::Semicolon => Some(KeyCode::Semicolon),
        VirtualKeyCode::Slash => Some(KeyCode::Slash),
        VirtualKeyCode::Sleep => Some(KeyCode::Sleep),
        VirtualKeyCode::Stop => Some(KeyCode::Stop),
        VirtualKeyCode::Sysrq => Some(KeyCode::Sysrq),
        VirtualKeyCode::Tab => Some(KeyCode::Tab),
        VirtualKeyCode::Underline => Some(KeyCode::Underline),
        VirtualKeyCode::Unlabeled => Some(KeyCode::Unlabeled),
        VirtualKeyCode::VolumeDown => Some(KeyCode::VolumeDown),
        VirtualKeyCode::VolumeUp => Some(KeyCode::VolumeUp),
        VirtualKeyCode::Wake => Some(KeyCode::Wake),
        VirtualKeyCode::WebBack => Some(KeyCode::WebBack),
        VirtualKeyCode::WebFavorites => Some(KeyCode::WebFavorites),
        VirtualKeyCode::WebForward => Some(KeyCode::WebForward),
        VirtualKeyCode::WebHome => Some(KeyCode::WebHome),
        VirtualKeyCode::WebRefresh => Some(KeyCode::WebRefresh),
        VirtualKeyCode::WebSearch => Some(KeyCode::WebSearch),
        VirtualKeyCode::WebStop => Some(KeyCode::WebStop),
        VirtualKeyCode::Yen => Some(KeyCode::Yen),
        VirtualKeyCode::Copy => Some(KeyCode::Copy),
        VirtualKeyCode::Paste => Some(KeyCode::Paste),
        VirtualKeyCode::Cut => Some(KeyCode::Cut),
        // Left out on purpose: no stable meaning across platforms.
        VirtualKeyCode::Asterisk => None,
        VirtualKeyCode::Plus => None,
    }
}

/// Whether a platform key is one of the two that give no key code.
pub open spec fn unmapped_key(v: VirtualKeyCode) -> bool {
    v == VirtualKeyCode::Asterisk || v == VirtualKeyCode::Plus
}

/// Maps a platform key to the application's key code.
pub fn key_code(virtual_keycode: VirtualKeyCode) -> (r: Option<KeyCode>)
    ensures
        r == key_code_of(virtual_keycode),
        r is None <==> unmapped_key(virtual_keycode),
{
    match virtual_keycode {
        VirtualKeyCode::Key1 => Some(KeyCode::Key1),
        VirtualKeyCode::Key2 => Some(KeyCode::Key2),
        VirtualKeyCode::Key3 => Some(KeyCode::Key3),
        VirtualKeyCode::Key4 => Some(KeyCode::Key4),
        VirtualKeyCode::Key5 => Some(KeyCode::Key5),
        VirtualKeyCode::Key6 => Some(KeyCode::Key6),
        VirtualKeyCode::Key7 => Some(KeyCode::Key7),
        VirtualKeyCode::Key8 => Some(KeyCode::Key8),
        VirtualKeyCode::Key9 => Some(KeyCode::Key9),
        VirtualKeyCode::Key0 => Some(KeyCode::Key0),
        VirtualKeyCode::A => Some(KeyCode::A),
        VirtualKeyCode::B => Some(KeyCode::B),
        VirtualKeyCode::C => Some(KeyCode::C),
        VirtualKeyCode::D => Some(KeyCode::D),
        VirtualKeyCode::E => Some(KeyCode::E),
        VirtualKeyCode::F => Some(KeyCode::F),
        VirtualKeyCode::G => Some(KeyCode::G),
        VirtualKeyCode::H => Some(KeyCode::H),
        VirtualKeyCode::I => Some(KeyCode::I),
        VirtualKeyCode::J => Some(KeyCode::J),
        VirtualKeyCode::K => Some(KeyCode::K),
        VirtualKeyCode::L => Some(KeyCode::L),
        VirtualKeyCode::M => Some(KeyCode::M),
        VirtualKeyCode::N => Some(KeyCode::N),
        VirtualKeyCode::O => Some(KeyCode::O),
        VirtualKeyCode::P => Some(KeyCode::P),
        VirtualKeyCode::Q => Some(KeyCode::Q),
        VirtualKeyCode::R => Some(KeyCode::R),
        VirtualKeyCode::S => Some(KeyCode::S),
        VirtualKeyCode::T => Some(KeyCode::T),
        VirtualKeyCode::U => Some(KeyCode::U),
        VirtualKeyCode::V => Some(KeyCode::V),
        VirtualKeyCode::W => Some(KeyCode::W),
        VirtualKeyCode::X => Some(KeyCode::X),
        VirtualKeyCode::Y => Some(KeyCode::Y),
        VirtualKeyCode::Z => Some(KeyCode::Z),
        VirtualKeyCode::Escape => Some(KeyCode::Escape),
        VirtualKeyCode::F1 => Some(KeyCode::F1),
        VirtualKeyCode::F2 => Some(KeyCode::F2),
        VirtualKeyCode::F3 => Some(KeyCode::F3),
        VirtualKeyCode::F4 => Some(KeyCode::F4),
        VirtualKeyCode::F5 => Some(KeyCode::F5),
        VirtualKeyCode::F6 => Some(KeyCode::F6),
        VirtualKeyCode::F7 => Some(KeyCode::F7),
        VirtualKeyCode::F8 => Some(KeyCode::F8),
        VirtualKeyCode::F9 => Some(KeyCode::F9),
        VirtualKeyCode::F10 => Some(KeyCode::F10),
        VirtualKeyCode::F11 => Some(KeyCode::F11),
        VirtualKeyCode::F12 => Some(KeyCode::F12),
        VirtualKeyCode::F13 => Some(KeyCode::F13),
        VirtualKeyCode::F14 => Some(KeyCode::F14),
        VirtualKeyCode::F15 => Some(KeyCode::F15),
        VirtualKeyCode::F16 => Some(KeyCode::F16),
        VirtualKeyCode::F17 => Some(KeyCode::F17),
        VirtualKeyCode::F18 => Some(KeyCode::F18),
        VirtualKeyCode::F19 => Some(KeyCode::F19),
        VirtualKeyCode::F20 => Some(KeyCode::F20),
        VirtualKeyCode::F21 => Some(KeyCode::F21),
        VirtualKeyCode::F22 => Some(KeyCode::F22),
        VirtualKeyCode::F23 => Some(KeyCode::F23),
        VirtualKeyCode::F24 => Some(KeyCode::F24),
        VirtualKeyCode::Snapshot => Some(KeyCode::Snapshot),
        VirtualKeyCode::Scroll => Some(KeyCode::Scroll),
        VirtualKeyCode::Pause => Some(KeyCode::Pause),
        VirtualKeyCode::Insert => Some(KeyCode::Insert),
        VirtualKeyCode::Home => Some(KeyCode::Home),
        VirtualKeyCode::Delete => Some(KeyCode::Delete),
        VirtualKeyCode::End => Some(KeyCode::End),
        VirtualKeyCode::PageDown => Some(KeyCode::PageDown),
        VirtualKeyCode::PageUp => Some(KeyCode::PageUp),
        VirtualKeyCode::Left => Some(KeyCode::Left),
        VirtualKeyCode::Up => Some(KeyCode::Up),
        VirtualKeyCode::Right => Some(KeyCode::Right),
        VirtualKeyCode::Down => Some(KeyCode::Down),
        VirtualKeyCode::Back => Some(KeyCode::Backspace),
        VirtualKeyCode::Return => Some(KeyCode::Enter),
        VirtualKeyCode::Space => Some(KeyCode::Space),
        VirtualKeyCode::Compose => Some(KeyCode::Compose),
        VirtualKeyCode::Caret => Some(KeyCode::Caret),
        VirtualKeyCode::Numlock => Some(KeyCode::Numlock),
        VirtualKeyCode::Numpad0 => Some(KeyCode::Numpad0),
        VirtualKeyCode::Numpad1 => Some(KeyCode::Numpad1),
        VirtualKeyCode::Numpad2 => Some(KeyCode::Numpad2),
        VirtualKeyCode::Numpad3 => Some(KeyCode::Numpad3),
        VirtualKeyCode::Numpad4 => Some(KeyCode::Numpad4),
        VirtualKeyCode::Numpad5 => Some(KeyCode::Numpad5),
        VirtualKeyCode::Numpad6 => Some(KeyCode::Numpad6),
        VirtualKeyCode::Numpad7 => Some(KeyCode::Numpad7),
        VirtualKeyCode::Numpad8 => Some(KeyCode::Numpad8),
        VirtualKeyCode::Numpad9 => Some(KeyCode::Numpad9),
        VirtualKeyCode::NumpadAdd => Some(KeyCode::NumpadAdd),
        VirtualKeyCode::NumpadDivide => Some(KeyCode::NumpadDivide),
        VirtualKeyCode::NumpadDecimal => Some(KeyCode::NumpadDecimal),
        VirtualKeyCode::NumpadComma => Some(KeyCode::NumpadComma),
        VirtualKeyCode::NumpadEnter => Some(KeyCode::NumpadEnter),
        VirtualKeyCode::NumpadEquals => Some(KeyCode::NumpadEquals),
        VirtualKeyCode::NumpadMultiply => Some(KeyCode::NumpadMultiply),
        VirtualKeyCode::NumpadSubtract => Some(KeyCode::NumpadSubtract),
        VirtualKeyCode::AbntC1 => Some(KeyCode::AbntC1),
        VirtualKeyCode::AbntC2 => Some(KeyCode::AbntC2),
        VirtualKeyCode::Apostrophe => Some(KeyCode::Apostrophe),
        VirtualKeyCode::Apps => Some(KeyCode::Apps),
        VirtualKeyCode::At => Some(KeyCode::At),
        VirtualKeyCode::Ax => Some(KeyCode::Ax),
        VirtualKeyCode::Backslash => Some(KeyCode::Backslash),
        VirtualKeyCode::Calculator => Some(KeyCode::Calculator),
        VirtualKeyCode::Capital => Some(KeyCode::Capital),
        VirtualKeyCode::Colon => Some(KeyCode::Colon),
        VirtualKeyCode::Comma => Some(KeyCode::Comma),
        VirtualKeyCode::Convert => Some(KeyCode::Convert),
        VirtualKeyCode::Equals => Some(KeyCode::Equals),
        VirtualKeyCode::Grave => Some(KeyCode::Grave),
        VirtualKeyCode::Kana => Some(KeyCode::Kana),
        VirtualKeyCode::Kanji => Some(KeyCode::Kanji),
        VirtualKeyCode::LAlt => Some(KeyCode::LAlt),
        VirtualKeyCode::LBracket => Some(KeyCode::LBracket),
        VirtualKeyCode::LControl => Some(KeyCode::LControl),
        VirtualKeyCode::LShift => Some(KeyCode::LShift),
        VirtualKeyCode::LWin => Some(KeyCode::LWin),
        VirtualKeyCode::Mail => Some(KeyCode::Mail),
        VirtualKeyCode::MediaSelect => Some(KeyCode::MediaSelect),
        VirtualKeyCode::MediaStop => Some(KeyCode::MediaStop),
        VirtualKeyCode::Minus => Some(KeyCode::Minus),
        VirtualKeyCode::Mute => Some(KeyCode::Mute),
        VirtualKeyCode::MyComputer => Some(KeyCode::MyComputer),
        VirtualKeyCode::NavigateForward => Some(KeyCode::NavigateForward),
        VirtualKeyCode::NavigateBackward => Some(KeyCode::NavigateBackward),
        VirtualKeyCode::NextTrack => Some(KeyCode::NextTrack),
        VirtualKeyCode::NoConvert => Some(KeyCode::NoConvert),
        VirtualKeyCode::OEM102 => Some(KeyCode::OEM102),
        VirtualKeyCode::Period => Some(KeyCode::Period),
        VirtualKeyCode::PlayPause => Some(KeyCode::PlayPause),
        VirtualKeyCode::Power => Some(KeyCode::Power),
        VirtualKeyCode::PrevTrack => Some(KeyCode::PrevTrack),
        VirtualKeyCode::RAlt => Some(KeyCode::RAlt),
        VirtualKeyCode::RBracket => Some(KeyCode::RBracket),
        VirtualKeyCode::RControl => Some(KeyCode::RControl),
        VirtualKeyCode::RShift => Some(KeyCode::RShift),
        VirtualKeyCode::RWin => Some(KeyCode::RWin),
        VirtualKeyCode::Semicolon => Some(KeyCode::Semicolon),
        VirtualKeyCode::Slash => Some(KeyCode::Slash),
        VirtualKeyCode::Sleep => Some(KeyCode::Sleep),
        VirtualKeyCode::Stop => Some(KeyCode::Stop),
        VirtualKeyCode::Sysrq => Some(KeyCode::Sysrq),
        VirtualKeyCode::Tab => Some(KeyCode::Tab),
        VirtualKeyCode::Underline => Some(KeyCode::Underline),
        VirtualKeyCode::Unlabeled => Some(KeyCode::Unlabeled),
        VirtualKeyCode::VolumeDown => Some(KeyCode::VolumeDown),
        VirtualKeyCode::VolumeUp => Some(KeyCode::VolumeUp),
        VirtualKeyCode::Wake => Some(KeyCode::Wake),
        VirtualKeyCode::WebBack => Some(KeyCode::WebBack),
        VirtualKeyCode::WebFavorites => Some(KeyCode::WebFavorites),
        VirtualKeyCode::WebForward => Some(KeyCode::WebForward),
        VirtualKeyCode::WebHome => Some(KeyCode::WebHome),
        VirtualKeyCode::WebRefresh => Some(KeyCode::WebRefresh),
        VirtualKeyCode::WebSearch => Some(KeyCode::WebSearch),
        VirtualKeyCode::WebStop => Some(KeyCode::WebStop),
        VirtualKeyCode::Yen => Some(KeyCode::Yen),
        VirtualKeyCode::Copy => Some(KeyCode::Copy),
        VirtualKeyCode::Paste => Some(KeyCode::Paste),
        VirtualKeyCode::Cut => Some(KeyCode::Cut),
        // Left out on purpose: no stable meaning across platforms.
        VirtualKeyCode::Asterisk => None,
        VirtualKeyCode::Plus => None,
    }
}

} // verus!
