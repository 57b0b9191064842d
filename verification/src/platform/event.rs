//! The event vocabulary the backend produces and the widgets consume.

use vstd::prelude::*;
use crate::platform::window::WindowId;
use crate::platform::cx::Cx;

verus! {

/// One platform event.  Coordinates are on the integer grid; scale
/// factors are in thousandths.
#[derive(Clone, Debug)]
pub enum Event {
    NoEvent,
    Init,
    Shutdown,
    Draw,
    WindowResize { window_id: WindowId, width: i64, height: i64, dpi_factor: i64 },
    WindowClose { window_id: WindowId },
    MouseDown { window_id: WindowId, x: i64, y: i64, button: MouseButton },
    MouseUp { window_id: WindowId, x: i64, y: i64, button: MouseButton },
    MouseMove { window_id: WindowId, x: i64, y: i64 },
    KeyDown { window_id: WindowId, key_code: KeyCode, is_repeat: bool },
    KeyUp { window_id: WindowId, key_code: KeyCode },
    TextInput { window_id: WindowId, input: String },
}

#[derive(Clone, Copy, Debug, PartialEq, Eq, Structural)]
pub enum MouseButton {
    Left,
    Right,
    Middle,
}

#[derive(Clone, Copy, Debug, PartialEq, Eq, Structural)]
pub enum KeyCode {
    Key0,
    Key1,
    Key2,
    Key3,
    Key4,
    Key5,
    Key6,
    Key7,
    Key8,
    Key9,
    A,
    B,
    C,
    D,
    E,
    F,
    G,
    H,
    I,
    J,
    K,
    L,
    M,
    N,
    O,
    P,
    Q,
    R,
    S,
    T,
    U,
    V,
    W,
    X,
    Y,
    Z,
    Escape,
    F1,
    F2,
    F3,
    F4,
    F5,
    F6,
    F7,
    F8,
    F9,
    F10,
    F11,
    F12,
    Insert,
    Delete,
    Home,
    End,
    PageUp,
    PageDown,
    Left,
    Up,
    Right,
    Down,
    Backspace,
    Return,
    Space,
    Tab,
    Shift,
    Control,
    Alt,
    CapsLock,
    NumLock,
    ScrollLock,
    Unknown,
}

/// What the frame loop dispatches events to; the embedding implements it
/// for its application type.
pub trait EventHandler {
    fn handle_event(&mut self, cx: &mut Cx, event: &Event);
}

} // verus!
