//! Input translation: the fixed mapping from the GUI library's abstract
//! keys to the host's physical keys, and the rules for which key and
//! character events are forwarded into the GUI's io mirror.

use vstd::prelude::*;

verus! {

/// The GUI library's abstract keys: every named key of its input model,
/// including the gamepad, mouse and reserved entries that no physical
/// keyboard provides.
#[derive(Clone, Copy, PartialEq, Eq, Structural, Hash, Debug)]
pub enum GuiKey {
    Tab,
    LeftArrow,
    RightArrow,
    UpArrow,
    DownArrow,
    PageUp,
    PageDown,
    Home,
    End,
    Insert,
    Delete,
    Backspace,
    Space,
    Enter,
    Escape,
    LeftCtrl,
    LeftShift,
    LeftAlt,
    LeftSuper,
    RightCtrl,
    RightShift,
    RightAlt,
    RightSuper,
    Menu,
    Alpha0,
    Alpha1,
    Alpha2,
    Alpha3,
    Alpha4,
    Alpha5,
    Alpha6,
    Alpha7,
    Alpha8,
    Alpha9,
    A,
    B,
    C,
    D,
    E,
    F,
    G,
    H,
    I,
    J,
    K,
    L,
    M,
    N,
    O,
    P,
    Q,
    R,
    S,
    T,
    U,
    V,
    W,
    X,
    Y,
    Z,
    F1,
    F2,
    F3,
    F4,
    F5,
    F6,
    F7,
    F8,
    F9,
    F10,
    F11,
    F12,
    Apostrophe,
    Comma,
    Minus,
    Period,
    Slash,
    Semicolon,
    Equal,
    LeftBracket,
    Backslash,
    RightBracket,
    GraveAccent,
    CapsLock,
    ScrollLock,
    NumLock,
    PrintScreen,
    Pause,
    Keypad0,
    Keypad1,
    Keypad2,
    Keypad3,
    Keypad4,
    Keypad5,
    Keypad6,
    Keypad7,
    Keypad8,
    Keypad9,
    KeypadDecimal,
    KeypadDivide,
    KeypadMultiply,
    KeypadSubtract,
    KeypadAdd,
    KeypadEnter,
    KeypadEqual,
    GamepadStart,
    GamepadBack,
    GamepadFaceLeft,
    GamepadFaceRight,
    GamepadFaceUp,
    GamepadFaceDown,
    GamepadDpadLeft,
    GamepadDpadRight,
    GamepadDpadUp,
    GamepadDpadDown,
    GamepadL1,
    GamepadR1,
    GamepadL2,
    GamepadR2,
    GamepadL3,
    GamepadR3,
    GamepadLStickLeft,
    GamepadLStickRight,
    GamepadLStickUp,
    GamepadLStickDown,
    GamepadRStickLeft,
    GamepadRStickRight,
    GamepadRStickUp,
    GamepadRStickDown,
    MouseLeft,
    MouseRight,
    MouseMiddle,
    MouseX1,
    MouseX2,
    MouseWheelX,
    MouseWheelY,
    ReservedForModCtrl,
    ReservedForModShift,
    ReservedForModAlt,
    ReservedForModSuper,
}

/// The host's physical keys: the keyboard codes the mapping can land on,
/// plus the sentinel `Unknown` for GUI keys no physical key produces.
/// `Unknown` is always reported as not pressed.
#[derive(Clone, Copy, PartialEq, Eq, Structural, Hash, Debug)]
pub enum HostKey {
    Tab,
    ArrowLeft,
    ArrowRight,
    ArrowUp,
    ArrowDown,
    PageUp,
    PageDown,
    Home,
    End,
    Insert,
    Delete,
    Backspace,
    Space,
    Enter,
    Escape,
    ControlLeft,
    ShiftLeft,
    AltLeft,
    SuperLeft,
    ControlRight,
    ShiftRight,
    AltRight,
    SuperRight,
    ContextMenu,
    Digit0,
    Digit1,
    Digit2,
    Digit3,
    Digit4,
    Digit5,
    Digit6,
    Digit7,
    Digit8,
    Digit9,
    KeyA,
    KeyB,
    KeyC,
    KeyD,
    KeyE,
    KeyF,
    KeyG,
    KeyH,
    KeyI,
    KeyJ,
    KeyK,
    KeyL,
    KeyM,
    KeyN,
    KeyO,
    KeyP,
    KeyQ,
    KeyR,
    KeyS,
    KeyT,
    KeyU,
    KeyV,
    KeyW,
    KeyX,
    KeyY,
    KeyZ,
    F1,
    F2,
    F3,
    F4,
    F5,
    F6,
    F7,
    F8,
    F9,
    F10,
    F11,
    F12,
    Quote,
    Comma,
    Minus,
    Period,
    Slash,
    Semicolon,
    Equal,
    BracketLeft,
    Backslash,
    BracketRight,
    Backquote,
    CapsLock,
    ScrollLock,
    NumLock,
    PrintScreen,
    Pause,
    Numpad0,
    Numpad1,
    Numpad2,
    Numpad3,
    Numpad4,
    Numpad5,
    Numpad6,
    Numpad7,
    Numpad8,
    Numpad9,
    NumpadDecimal,
    NumpadDivide,
    NumpadMultiply,
    NumpadSubtract,
    NumpadAdd,
    NumpadEnter,
    NumpadEqual,
    Unknown,
}

/// The fixed key table: which physical key each abstract GUI key reads
/// from. Gamepad and mouse entries, and the reserved modifier slots, have
/// no physical key and land on the sentinel.
pub open spec fn host_key_of(k: GuiKey) -> HostKey {
    match k {
        GuiKey::Tab => HostKey::Tab,
        GuiKey::LeftArrow => HostKey::ArrowLeft,
        GuiKey::RightArrow => HostKey::ArrowRight,
        GuiKey::UpArrow => HostKey::ArrowUp,
        GuiKey::DownArrow => HostKey::ArrowDown,
        GuiKey::PageUp => HostKey::PageUp,
        GuiKey::PageDown => HostKey::PageDown,
        GuiKey::Home => HostKey::Home,
        GuiKey::End => HostKey::End,
        GuiKey::Insert => HostKey::Insert,
        GuiKey::Delete => HostKey::Delete,
        GuiKey::Backspace => HostKey::Backspace,
        GuiKey::Space => HostKey::Space,
        GuiKey::Enter => HostKey::Enter,
        GuiKey::Escape => HostKey::Escape,
        GuiKey::LeftCtrl => HostKey::ControlLeft,
        GuiKey::LeftShift => HostKey::ShiftLeft,
        GuiKey::LeftAlt => HostKey::AltLeft,
        GuiKey::LeftSuper => HostKey::SuperLeft,
        GuiKey::RightCtrl => HostKey::ControlRight,
        GuiKey::RightShift => HostKey::ShiftRight,
        GuiKey::RightAlt => HostKey::AltRight,
        GuiKey::RightSuper => HostKey::SuperRight,
        GuiKey::Menu => HostKey::ContextMenu,
        GuiKey::Alpha0 => HostKey::Digit0,
        GuiKey::Alpha1 => HostKey::Digit1,
        GuiKey::Alpha2 => HostKey::Digit2,
        GuiKey::Alpha3 => HostKey::Digit3,
        GuiKey::Alpha4 => HostKey::Digit4,
        GuiKey::Alpha5 => HostKey::Digit5,
        GuiKey::Alpha6 => HostKey::Digit6,
        GuiKey::Alpha7 => HostKey::Digit7,
        GuiKey::Alpha8 => HostKey::Digit8,
        GuiKey::Alpha9 => HostKey::Digit9,
        GuiKey::A => HostKey::KeyA,
        GuiKey::B => HostKey::KeyB,
        GuiKey::C => HostKey::KeyC,
        GuiKey::D => HostKey::KeyD,
        GuiKey::E => HostKey::KeyE,
        GuiKey::F => HostKey::KeyF,
        GuiKey::G => HostKey::KeyG,
        GuiKey::H => HostKey::KeyH,
        GuiKey::I => HostKey::KeyI,
        GuiKey::J => HostKey::KeyJ,
        GuiKey::K => HostKey::KeyK,
        GuiKey::L => HostKey::KeyL,
        GuiKey::M => HostKey::KeyM,
        GuiKey::N => HostKey::KeyN,
        GuiKey::O => HostKey::KeyO,
        GuiKey::P => HostKey::KeyP,
        GuiKey::Q => HostKey::KeyQ,
        GuiKey::R => HostKey::KeyR,
        GuiKey::S => HostKey::KeyS,
        GuiKey::T => HostKey::KeyT,
        GuiKey::U => HostKey::KeyU,
        GuiKey::V => HostKey::KeyV,
        GuiKey::W => HostKey::KeyW,
        GuiKey::X => HostKey::KeyX,
        GuiKey::Y => HostKey::KeyY,
        GuiKey::Z => HostKey::KeyZ,
        GuiKey::F1 => HostKey::F1,
        GuiKey::F2 => HostKey::F2,
        GuiKey::F3 => HostKey::F3,
        GuiKey::F4 => HostKey::F4,
        GuiKey::F5 => HostKey::F5,
        GuiKey::F6 => HostKey::F6,
        GuiKey::F7 => HostKey::F7,
        GuiKey::F8 => HostKey::F8,
        GuiKey::F9 => HostKey::F9,
        GuiKey::F10 => HostKey::F10,
        GuiKey::F11 => HostKey::F11,
        GuiKey::F12 => HostKey::F12,
        GuiKey::Apostrophe => HostKey::Quote,
        GuiKey::Comma => HostKey::Comma,
        GuiKey::Minus => HostKey::Minus,
        GuiKey::Period => HostKey::Period,
        GuiKey::Slash => HostKey::Slash,
        GuiKey::Semicolon => HostKey::Semicolon,
        GuiKey::Equal => HostKey::Equal,
        GuiKey::LeftBracket => HostKey::BracketLeft,
        GuiKey::Backslash => HostKey::Backslash,
        GuiKey::RightBracket => HostKey::BracketRight,
        GuiKey::GraveAccent => HostKey::Backquote,
        GuiKey::CapsLock => HostKey::CapsLock,
        GuiKey::ScrollLock => HostKey::ScrollLock,
        GuiKey::NumLock => HostKey::NumLock,
        GuiKey::PrintScreen => HostKey::PrintScreen,
        GuiKey::Pause => HostKey::Pause,
        GuiKey::Keypad0 => HostKey::Numpad0,
        GuiKey::Keypad1 => HostKey::Numpad1,
        GuiKey::Keypad2 => HostKey::Numpad2,
        GuiKey::Keypad3 => HostKey::Numpad3,
        GuiKey::Keypad4 => HostKey::Numpad4,
        GuiKey::Keypad5 => HostKey::Numpad5,
        GuiKey::Keypad6 => HostKey::Numpad6,
        GuiKey::Keypad7 => HostKey::Numpad7,
        GuiKey::Keypad8 => HostKey::Numpad8,
        GuiKey::Keypad9 => HostKey::Numpad9,
        GuiKey::KeypadDecimal => HostKey::NumpadDecimal,
        GuiKey::KeypadDivide => HostKey::NumpadDivide,
        GuiKey::KeypadMultiply => HostKey::NumpadMultiply,
        GuiKey::KeypadSubtract => HostKey::NumpadSubtract,
        GuiKey::KeypadAdd => HostKey::NumpadAdd,
        GuiKey::KeypadEnter => HostKey::NumpadEnter,
        GuiKey::KeypadEqual => HostKey::NumpadEqual,
        GuiKey::GamepadStart => HostKey::Unknown,
        GuiKey::GamepadBack => HostKey::Unknown,
        GuiKey::GamepadFaceLeft => HostKey::Unknown,
        GuiKey::GamepadFaceRight => HostKey::Unknown,
        GuiKey::GamepadFaceUp => HostKey::Unknown,
        GuiKey::GamepadFaceDown => HostKey::Unknown,
        GuiKey::GamepadDpadLeft => HostKey::Unknown,
        GuiKey::GamepadDpadRight => HostKey::Unknown,
        GuiKey::GamepadDpadUp => HostKey::Unknown,
        GuiKey::GamepadDpadDown => HostKey::Unknown,
        GuiKey::GamepadL1 => HostKey::Unknown,
        GuiKey::GamepadR1 => HostKey::Unknown,
        GuiKey::GamepadL2 => HostKey::Unknown,
        GuiKey::GamepadR2 => HostKey::Unknown,
        GuiKey::GamepadL3 => HostKey::Unknown,
        GuiKey::GamepadR3 => HostKey::Unknown,
        GuiKey::GamepadLStickLeft => HostKey::Unknown,
        GuiKey::GamepadLStickRight => HostKey::Unknown,
        GuiKey::GamepadLStickUp => HostKey::Unknown,
        GuiKey::GamepadLStickDown => HostKey::Unknown,
        GuiKey::GamepadRStickLeft => HostKey::Unknown,
        GuiKey::GamepadRStickRight => HostKey::Unknown,
        GuiKey::GamepadRStickUp => HostKey::Unknown,
        GuiKey::GamepadRStickDown => HostKey::Unknown,
        GuiKey::MouseLeft => HostKey::Unknown,
        GuiKey::MouseRight => HostKey::Unknown,
        GuiKey::MouseMiddle => HostKey::Unknown,
        GuiKey::MouseX1 => HostKey::Unknown,
        GuiKey::MouseX2 => HostKey::Unknown,
        GuiKey::MouseWheelX => HostKey::Unknown,
        GuiKey::MouseWheelY => HostKey::Unknown,
        GuiKey::ReservedForModCtrl => HostKey::Unknown,
        GuiKey::ReservedForModShift => HostKey::Unknown,
        GuiKey::ReservedForModAlt => HostKey::Unknown,
        GuiKey::ReservedForModSuper => HostKey::Unknown,
    }
}

/// Executable form of the fixed key table.
pub fn map_key(k: GuiKey) -> (r: HostKey)
    ensures
        r == host_key_of(k),
{
    match k {
        GuiKey::Tab => HostKey::Tab,
        GuiKey::LeftArrow => HostKey::ArrowLeft,
        GuiKey::RightArrow => HostKey::ArrowRight,
        GuiKey::UpArrow => HostKey::ArrowUp,
        GuiKey::DownArrow => HostKey::ArrowDown,
        GuiKey::PageUp => HostKey::PageUp,
        GuiKey::PageDown => HostKey::PageDown,
        GuiKey::Home => HostKey::Home,
        GuiKey::End => HostKey::End,
        GuiKey::Insert => HostKey::Insert,
        GuiKey::Delete => HostKey::Delete,
        GuiKey::Backspace => HostKey::Backspace,
        GuiKey::Space => HostKey::Space,
        GuiKey::Enter => HostKey::Enter,
        GuiKey::Escape => HostKey::Escape,
        GuiKey::LeftCtrl => HostKey::ControlLeft,
        GuiKey::LeftShift => HostKey::ShiftLeft,
        GuiKey::LeftAlt => HostKey::AltLeft,
        GuiKey::LeftSuper => HostKey::SuperLeft,
        GuiKey::RightCtrl => HostKey::ControlRight,
        GuiKey::RightShift => HostKey::ShiftRight,
        GuiKey::RightAlt => HostKey::AltRight,
        GuiKey::RightSuper => HostKey::SuperRight,
        GuiKey::Menu => HostKey::ContextMenu,
        GuiKey::Alpha0 => HostKey::Digit0,
        GuiKey::Alpha1 => HostKey::Digit1,
        GuiKey::Alpha2 => HostKey::Digit2,
        GuiKey::Alpha3 => HostKey::Digit3,
        GuiKey::Alpha4 => HostKey::Digit4,
        GuiKey::Alpha5 => HostKey::Digit5,
        GuiKey::Alpha6 => HostKey::Digit6,
        GuiKey::Alpha7 => HostKey::Digit7,
        GuiKey::Alpha8 => HostKey::Digit8,
        GuiKey::Alpha9 => HostKey::Digit9,
        GuiKey::A => HostKey::KeyA,
        GuiKey::B => HostKey::KeyB,
        GuiKey::C => HostKey::KeyC,
        GuiKey::D => HostKey::KeyD,
        GuiKey::E => HostKey::KeyE,
        GuiKey::F => HostKey::KeyF,
        GuiKey::G => HostKey::KeyG,
        GuiKey::H => HostKey::KeyH,
        GuiKey::I => HostKey::KeyI,
        GuiKey::J => HostKey::KeyJ,
        GuiKey::K => HostKey::KeyK,
        GuiKey::L => HostKey::KeyL,
        GuiKey::M => HostKey::KeyM,
        GuiKey::N => HostKey::KeyN,
        GuiKey::O => HostKey::KeyO,
        GuiKey::P => HostKey::KeyP,
        GuiKey::Q => HostKey::KeyQ,
        GuiKey::R => HostKey::KeyR,
        GuiKey::S => HostKey::KeyS,
        GuiKey::T => HostKey::KeyT,
        GuiKey::U => HostKey::KeyU,
        GuiKey::V => HostKey::KeyV,
        GuiKey::W => HostKey::KeyW,
        GuiKey::X => HostKey::KeyX,
        GuiKey::Y => HostKey::KeyY,
        GuiKey::Z => HostKey::KeyZ,
        GuiKey::F1 => HostKey::F1,
        GuiKey::F2 => HostKey::F2,
        GuiKey::F3 => HostKey::F3,
        GuiKey::F4 => HostKey::F4,
        GuiKey::F5 => HostKey::F5,
        GuiKey::F6 => HostKey::F6,
        GuiKey::F7 => HostKey::F7,
        GuiKey::F8 => HostKey::F8,
        GuiKey::F9 => HostKey::F9,
        GuiKey::F10 => HostKey::F10,
        GuiKey::F11 => HostKey::F11,
        GuiKey::F12 => HostKey::F12,
        GuiKey::Apostrophe => HostKey::Quote,
        GuiKey::Comma => HostKey::Comma,
        GuiKey::Minus => HostKey::Minus,
        GuiKey::Period => HostKey::Period,
        GuiKey::Slash => HostKey::Slash,
        GuiKey::Semicolon => HostKey::Semicolon,
        GuiKey::Equal => HostKey::Equal,
        GuiKey::LeftBracket => HostKey::BracketLeft,
        GuiKey::Backslash => HostKey::Backslash,
        GuiKey::RightBracket => HostKey::BracketRight,
        GuiKey::GraveAccent => HostKey::Backquote,
        GuiKey::CapsLock => HostKey::CapsLock,
        GuiKey::ScrollLock => HostKey::ScrollLock,
        GuiKey::NumLock => HostKey::NumLock,
        GuiKey::PrintScreen => HostKey::PrintScreen,
        GuiKey::Pause => HostKey::Pause,
        GuiKey::Keypad0 => HostKey::Numpad0,
        GuiKey::Keypad1 => HostKey::Numpad1,
        GuiKey::Keypad2 => HostKey::Numpad2,
        GuiKey::Keypad3 => HostKey::Numpad3,
        GuiKey::Keypad4 => HostKey::Numpad4,
        GuiKey::Keypad5 => HostKey::Numpad5,
        GuiKey::Keypad6 => HostKey::Numpad6,
        GuiKey::Keypad7 => HostKey::Numpad7,
        GuiKey::Keypad8 => HostKey::Numpad8,
        GuiKey::Keypad9 => HostKey::Numpad9,
        GuiKey::KeypadDecimal => HostKey::NumpadDecimal,
        GuiKey::KeypadDivide => HostKey::NumpadDivide,
        GuiKey::KeypadMultiply => HostKey::NumpadMultiply,
        GuiKey::KeypadSubtract => HostKey::NumpadSubtract,
        GuiKey::KeypadAdd => HostKey::NumpadAdd,
        GuiKey::KeypadEnter => HostKey::NumpadEnter,
        GuiKey::KeypadEqual => HostKey::NumpadEqual,
        GuiKey::GamepadStart => HostKey::Unknown,
        GuiKey::GamepadBack => HostKey::Unknown,
        GuiKey::GamepadFaceLeft => HostKey::Unknown,
        GuiKey::GamepadFaceRight => HostKey::Unknown,
        GuiKey::GamepadFaceUp => HostKey::Unknown,
        GuiKey::GamepadFaceDown => HostKey::Unknown,
        GuiKey::GamepadDpadLeft => HostKey::Unknown,
        GuiKey::GamepadDpadRight => HostKey::Unknown,
        GuiKey::GamepadDpadUp => HostKey::Unknown,
        GuiKey::GamepadDpadDown => HostKey::Unknown,
        GuiKey::GamepadL1 => HostKey::Unknown,
        GuiKey::GamepadR1 => HostKey::Unknown,
        GuiKey::GamepadL2 => HostKey::Unknown,
        GuiKey::GamepadR2 => HostKey::Unknown,
        GuiKey::GamepadL3 => HostKey::Unknown,
        GuiKey::GamepadR3 => HostKey::Unknown,
        GuiKey::GamepadLStickLeft => HostKey::Unknown,
        GuiKey::GamepadLStickRight => HostKey::Unknown,
        GuiKey::GamepadLStickUp => HostKey::Unknown,
        GuiKey::GamepadLStickDown => HostKey::Unknown,
        GuiKey::GamepadRStickLeft => HostKey::Unknown,
        GuiKey::GamepadRStickRight => HostKey::Unknown,
        GuiKey::GamepadRStickUp => HostKey::Unknown,
        GuiKey::GamepadRStickDown => HostKey::Unknown,
        GuiKey::MouseLeft => HostKey::Unknown,
        GuiKey::MouseRight => HostKey::Unknown,
        GuiKey::MouseMiddle => HostKey::Unknown,
        GuiKey::MouseX1 => HostKey::Unknown,
        GuiKey::MouseX2 => HostKey::Unknown,
        GuiKey::MouseWheelX => HostKey::Unknown,
        GuiKey::MouseWheelY => HostKey::Unknown,
        GuiKey::ReservedForModCtrl => HostKey::Unknown,
        GuiKey::ReservedForModShift => HostKey::Unknown,
        GuiKey::ReservedForModAlt => HostKey::Unknown,
        GuiKey::ReservedForModSuper => HostKey::Unknown,
    }
}

/// Whether `k` occurs in `pressed`.
fn host_key_in(pressed: &Vec<HostKey>, k: HostKey) -> (r: bool)
    ensures
        r == pressed@.contains(k),
{
    let n = pressed.len();
    let mut i: usize = 0;
    while i < n
        invariant
            i <= n,
            n == pressed@.len(),
            forall|j: int| 0 <= j < i ==> pressed@[j] != k,
        decreases n - i,
    {
        if pressed[i] == k {
            return true;
        }
        i = i + 1;
    }
    false
}

/// Whether the GUI key `k` reads as pressed, given the physical keys that
/// are down. A key whose table entry is the sentinel is never pressed,
/// whatever the keyboard reports.
pub fn gui_key_pressed(pressed: &Vec<HostKey>, k: GuiKey) -> (r: bool)
    ensures
        r == (host_key_of(k) != HostKey::Unknown && pressed@.contains(host_key_of(k))),
{
    let hk = map_key(k);
    if hk == HostKey::Unknown {
        false
    } else {
        host_key_in(pressed, hk)
    }
}

/// The io mirror's modifier flags: each is set when either of its two
/// physical keys is down.
#[derive(Clone, Copy, PartialEq, Eq, Structural, Debug)]
pub struct Modifiers {
    /// Either alt key is down.
    pub alt: bool,
    /// Either control key is down.
    pub ctrl: bool,
    /// Either shift key is down.
    pub shift: bool,
    /// Either super (logo) key is down.
    pub super_key: bool,
}

/// Computes the modifier flags from the physical keys that are down.
pub fn modifiers_of(pressed: &Vec<HostKey>) -> (m: Modifiers)
    ensures
        m.alt == (pressed@.contains(HostKey::AltLeft) || pressed@.contains(HostKey::AltRight)),
        m.ctrl == (pressed@.contains(HostKey::ControlLeft) || pressed@.contains(
            HostKey::ControlRight,
        )),
        m.shift == (pressed@.contains(HostKey::ShiftLeft) || pressed@.contains(
            HostKey::ShiftRight,
        )),
        m.super_key == (pressed@.contains(HostKey::SuperLeft) || pressed@.contains(
            HostKey::SuperRight,
        )),
{
    Modifiers {
        alt: host_key_in(pressed, HostKey::AltLeft) || host_key_in(pressed, HostKey::AltRight),
        ctrl: host_key_in(pressed, HostKey::ControlLeft) || host_key_in(
            pressed,
            HostKey::ControlRight,
        ),
        shift: host_key_in(pressed, HostKey::ShiftLeft) || host_key_in(
            pressed,
            HostKey::ShiftRight,
        ),
        super_key: host_key_in(pressed, HostKey::SuperLeft) || host_key_in(
            pressed,
            HostKey::SuperRight,
        ),
    }
}

/// The logical content of one keyboard text event, as the host reports it.
#[derive(Clone, Debug)]
pub enum TextKey {
    /// A printable character sequence; its code points, in order.
    Character(Vec<char>),
    /// A dead key, with the character it would compose, if any.
    Dead(Option<char>),
    /// The space bar.
    Space,
    /// Anything else: named keys, function keys, modifiers.
    Other,
}

/// Which character, if any, one text event forwards into the GUI's io
/// mirror: only pressed events forward anything, a character event forwards
/// its last code point, a dead key forwards its composed character, and the
/// space bar forwards a space. One code point per event.
pub fn forwarded_char(key: &TextKey, pressed: bool) -> (r: Option<char>)
    ensures
        !pressed ==> r is None,
        pressed ==> (match *key {
            TextKey::Character(ref cs) => if cs@.len() > 0 {
                r == Some(cs@.last())
            } else {
                r is None
            },
            TextKey::Dead(oc) => r == oc,
            TextKey::Space => r == Some(' '),
            TextKey::Other => r is None,
        }),
{
    if !pressed {
        return None;
    }
    match key {
        TextKey::Character(cs) => {
            let n = cs.len();
            if n > 0 {
                Some(cs[n - 1])
            } else {
                None
            }
        },
        TextKey::Dead(oc) => *oc,
        TextKey::Space => Some(' '),
        TextKey::Other => None,
    }
}

} // verus!
