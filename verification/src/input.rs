use vstd::prelude::*;

verus! {

/// Whether a character may be inserted as text: neither an ASCII control
/// character nor a code point of one of the Unicode private-use areas.
pub open spec fn spec_is_printable_char(chr: char) -> bool {
    let c = chr as u32;
    let in_private_use_area = (0xe000 <= c <= 0xf8ff) || (0xf0000 <= c <= 0xffffd) || (0x100000 <= c
        <= 0x10fffd);
    let is_ascii_control = c <= 0x1f || c == 0x7f;
    !in_private_use_area && !is_ascii_control
}

/// Decides whether a typed character is forwarded as text.
pub fn is_printable_char(chr: char) -> (r: bool)
    ensures
        r == spec_is_printable_char(chr),
{
    let c = chr as u32;
    let in_private_use_area = (0xe000 <= c && c <= 0xf8ff) || (0xf0000 <= c && c <= 0xffffd) || (
    0x100000 <= c && c <= 0x10fffd);
    let is_ascii_control = c <= 0x1f || c == 0x7f;
    !in_private_use_area && !is_ascii_control
}

/// The keys that the library reports in key events.
#[derive(Clone, Copy, PartialEq, Eq, Structural, Debug)]
pub enum Key {
    ArrowDown,
    ArrowLeft,
    ArrowRight,
    ArrowUp,
    Escape,
    Tab,
    Backspace,
    Enter,
    Space,
    Insert,
    Delete,
    Home,
    End,
    PageUp,
    PageDown,
    Num0,
    Num1,
    Num2,
    Num3,
    Num4,
    Num5,
    Num6,
    Num7,
    Num8,
    Num9,
    A,
    B,
    C,
    D,
    E,
    F,
    G,
    H,
    I,
    J,
    K,
    L,
    M,
    N,
    O,
    P,
    Q,
    R,
    S,
    T,
    U,
    V,
    W,
    X,
    Y,
    Z,
}

/// A physical key of the keyboard, as the windowing system names it.
/// Every key that the library does not tell apart is `Other`.
#[derive(Clone, Copy, PartialEq, Eq, Structural, Debug)]
pub enum KeyCode {
    ArrowDown,
    ArrowLeft,
    ArrowRight,
    ArrowUp,
    Escape,
    Tab,
    Backspace,
    Enter,
    Space,
    Insert,
    Delete,
    Home,
    End,
    PageUp,
    PageDown,
    Digit0,
    Digit1,
    Digit2,
    Digit3,
    Digit4,
    Digit5,
    Digit6,
    Digit7,
    Digit8,
    Digit9,
    Numpad0,
    Numpad1,
    Numpad2,
    Numpad3,
    Numpad4,
    Numpad5,
    Numpad6,
    Numpad7,
    Numpad8,
    Numpad9,
    KeyA,
    KeyB,
    KeyC,
    KeyD,
    KeyE,
    KeyF,
    KeyG,
    KeyH,
    KeyI,
    KeyJ,
    KeyK,
    KeyL,
    KeyM,
    KeyN,
    KeyO,
    KeyP,
    KeyQ,
    KeyR,
    KeyS,
    KeyT,
    KeyU,
    KeyV,
    KeyW,
    KeyX,
    KeyY,
    KeyZ,
    ControlLeft,
    ControlRight,
    AltLeft,
    AltRight,
    ShiftLeft,
    ShiftRight,
    SuperLeft,
    SuperRight,
    Other,
}

/// The key that a physical key reports, if the library reports it at all.
/// A digit key and the numpad key of the same digit report the same key.
pub open spec fn spec_translate_virtual_key_code(key: KeyCode) -> Option<Key> {
    match key {
        KeyCode::ArrowDown => Some(Key::ArrowDown),
        KeyCode::ArrowLeft => Some(Key::ArrowLeft),
        KeyCode::ArrowRight => Some(Key::ArrowRight),
        KeyCode::ArrowUp => Some(Key::ArrowUp),
        KeyCode::Escape => Some(Key::Escape),
        KeyCode::Tab => Some(Key::Tab),
        KeyCode::Backspace => Some(Key::Backspace),
        KeyCode::Enter => Some(Key::Enter),
        KeyCode::Space => Some(Key::Space),
        KeyCode::Insert => Some(Key::Insert),
        KeyCode::Delete => Some(Key::Delete),
        KeyCode::Home => Some(Key::Home),
        KeyCode::End => Some(Key::End),
        KeyCode::PageUp => Some(Key::PageUp),
        KeyCode::PageDown => Some(Key::PageDown),
        KeyCode::Digit0 | KeyCode::Numpad0 => Some(Key::Num0),
        KeyCode::Digit1 | KeyCode::Numpad1 => Some(Key::Num1),
        KeyCode::Digit2 | KeyCode::Numpad2 => Some(Key::Num2),
        KeyCode::Digit3 | KeyCode::Numpad3 => Some(Key::Num3),
        KeyCode::Digit4 | KeyCode::Numpad4 => Some(Key::Num4),
        KeyCode::Digit5 | KeyCode::Numpad5 => Some(Key::Num5),
        KeyCode::Digit6 | KeyCode::Numpad6 => Some(Key::Num6),
        KeyCode::Digit7 | KeyCode::Numpad7 => Some(Key::Num7),
        KeyCode::Digit8 | KeyCode::Numpad8 => Some(Key::Num8),
        KeyCode::Digit9 | KeyCode::Numpad9 => Some(Key::Num9),
        KeyCode::KeyA => Some(Key::A),
        KeyCode::KeyB => Some(Key::B),
        KeyCode::KeyC => Some(Key::C),
        KeyCode::KeyD => Some(Key::D),
        KeyCode::KeyE => Some(Key::E),
        KeyCode::KeyF => Some(Key::F),
        KeyCode::KeyG => Some(Key::G),
        KeyCode::KeyH => Some(Key::H),
        KeyCode::KeyI => Some(Key::I),
        KeyCode::KeyJ => Some(Key::J),
        KeyCode::KeyK => Some(Key::K),
        KeyCode::KeyL => Some(Key::L),
        KeyCode::KeyM => Some(Key::M),
        KeyCode::KeyN => Some(Key::N),
        KeyCode::KeyO => Some(Key::O),
        KeyCode::KeyP => Some(Key::P),
        KeyCode::KeyQ => Some(Key::Q),
        KeyCode::KeyR => Some(Key::R),
        KeyCode::KeyS => Some(Key::S),
        KeyCode::KeyT => Some(Key::T),
        KeyCode::KeyU => Some(Key::U),
        KeyCode::KeyV => Some(Key::V),
        KeyCode::KeyW => Some(Key::W),
        KeyCode::KeyX => Some(Key::X),
        KeyCode::KeyY => Some(Key::Y),
        KeyCode::KeyZ => Some(Key::Z),
        _ => None,
    }
}

/// Translates a physical key into the key that key events report.
pub fn translate_virtual_key_code(key: KeyCode) -> (r: Option<Key>)
    ensures
        r == spec_translate_virtual_key_code(key),
{
    let k = match key {
        KeyCode::ArrowDown => Key::ArrowDown,
        KeyCode::ArrowLeft => Key::ArrowLeft,
        KeyCode::ArrowRight => Key::ArrowRight,
        KeyCode::ArrowUp => Key::ArrowUp,
        KeyCode::Escape => Key::Escape,
        KeyCode::Tab => Key::Tab,
        KeyCode::Backspace => Key::Backspace,
        KeyCode::Enter => Key::Enter,
        KeyCode::Space => Key::Space,
        KeyCode::Insert => Key::Insert,
        KeyCode::Delete => Key::Delete,
        KeyCode::Home => Key::Home,
        KeyCode::End => Key::End,
        KeyCode::PageUp => Key::PageUp,
        KeyCode::PageDown => Key::PageDown,
        KeyCode::Digit0 | KeyCode::Numpad0 => Key::Num0,
        KeyCode::Digit1 | KeyCode::Numpad1 => Key::Num1,
        KeyCode::Digit2 | KeyCode::Numpad2 => Key::Num2,
        KeyCode::Digit3 | KeyCode::Numpad3 => Key::Num3,
        KeyCode::Digit4 | KeyCode::Numpad4 => Key::Num4,
        KeyCode::Digit5 | KeyCode::Numpad5 => Key::Num5,
        KeyCode::Digit6 | KeyCode::Numpad6 => Key::Num6,
        KeyCode::Digit7 | KeyCode::Numpad7 => Key::Num7,
        KeyCode::Digit8 | KeyCode::Numpad8 => Key::Num8,
        KeyCode::Digit9 | KeyCode::Numpad9 => Key::Num9,
        KeyCode::KeyA => Key::A,
        KeyCode::KeyB => Key::B,
        KeyCode::KeyC => Key::C,
        KeyCode::KeyD => Key::D,
        KeyCode::KeyE => Key::E,
        KeyCode::KeyF => Key::F,
        KeyCode::KeyG => Key::G,
        KeyCode::KeyH => Key::H,
        KeyCode::KeyI => Key::I,
        KeyCode::KeyJ => Key::J,
        KeyCode::KeyK => Key::K,
        KeyCode::KeyL => Key::L,
        KeyCode::KeyM => Key::M,
        KeyCode::KeyN => Key::N,
        KeyCode::KeyO => Key::O,
        KeyCode::KeyP => Key::P,
        KeyCode::KeyQ => Key::Q,
        KeyCode::KeyR => Key::R,
        KeyCode::KeyS => Key::S,
        KeyCode::KeyT => Key::T,
        KeyCode::KeyU => Key::U,
        KeyCode::KeyV => Key::V,
        KeyCode::KeyW => Key::W,
        KeyCode::KeyX => Key::X,
        KeyCode::KeyY => Key::Y,
        KeyCode::KeyZ => Key::Z,
        _ => {
            return None;
        },
    };
    Some(k)
}

/// Modifier keys that are held down.
#[derive(Clone, Copy, PartialEq, Eq, Structural, Debug)]
pub struct Modifiers {
    pub alt: bool,
    pub ctrl: bool,
    pub shift: bool,
    /// The command key on macOS, the control key elsewhere.
    pub command: bool,
}

/// No modifier held.
pub open spec fn no_modifiers() -> Modifiers {
    Modifiers { alt: false, ctrl: false, shift: false, command: false }
}

impl Default for Modifiers {
    fn default() -> (r: Self)
        ensures
            r == no_modifiers(),
    {
        Modifiers { alt: false, ctrl: false, shift: false, command: false }
    }
}

/// The mouse buttons that the library reports.
#[derive(Clone, Copy, PartialEq, Eq, Structural, Debug)]
pub enum MouseButton {
    Left,
    Right,
    Middle,
}

/// A mouse button as the windowing system names it.
#[derive(Clone, Copy, PartialEq, Eq, Structural, Debug)]
pub enum PointerButton {
    Left,
    Right,
    Middle,
    Back,
    Forward,
    Other(u16),
}

/// The mouse button that a pointer button reports, if any.
pub open spec fn spec_translate_mouse_button(button: PointerButton) -> Option<MouseButton> {
    match button {
        PointerButton::Left => Some(MouseButton::Left),
        PointerButton::Middle => Some(MouseButton::Middle),
        PointerButton::Right => Some(MouseButton::Right),
        _ => None,
    }
}

/// Translates a pointer button into the mouse button that events report.
pub fn translate_mouse_button(button: PointerButton) -> (r: Option<MouseButton>)
    ensures
        r == spec_translate_mouse_button(button),
{
    match button {
        PointerButton::Left => Some(MouseButton::Left),
        PointerButton::Middle => Some(MouseButton::Middle),
        PointerButton::Right => Some(MouseButton::Right),
        _ => None,
    }
}

/// The phase of a touch.
#[derive(Clone, Copy, PartialEq, Eq, Structural, Debug)]
pub enum TouchPhase {
    Started,
    Moved,
    Ended,
    Cancelled,
}

} // verus!

verus! {

/// How far the pointer moved: not at all, or from one point to another.
pub enum MotionDelta<P> {
    Zero,
    Between { from: P, to: P },
}

/// How far the wheel turned: a scroll amount as the windowing system gave it,
/// or a two-finger pinch in which the finger at `from` moved to `to` while the
/// other finger stayed at `anchor`.
pub enum WheelDelta<P, D> {
    Scroll(D),
    Pinch { anchor: P, from: P, to: P },
}

/// An event that the library hands to the application, with `P` the type of
/// a position, `D` that of a scroll amount and `T` that of a text.
#[allow(inconsistent_fields)]
pub enum InputEvent<P, D, T> {
    KeyPress { kind: Key, modifiers: Modifiers, handled: bool },
    KeyRelease { kind: Key, modifiers: Modifiers, handled: bool },
    ModifiersChange { modifiers: Modifiers },
    Text(T),
    MouseWheel { delta: WheelDelta<P, D>, position: P, modifiers: Modifiers, handled: bool },
    MousePress { button: MouseButton, position: P, modifiers: Modifiers, handled: bool },
    MouseRelease { button: MouseButton, position: P, modifiers: Modifiers, handled: bool },
    MouseMotion {
        button: Option<MouseButton>,
        delta: MotionDelta<P>,
        position: P,
        modifiers: Modifiers,
        handled: bool,
    },
    MouseEnter,
    MouseLeave,
}

/// An event with its text held in a `String`.
pub type Event<P, D> = InputEvent<P, D, String>;

/// The mathematical value of an event: its text as a sequence of characters.
pub type EventModel<P, D> = InputEvent<P, D, Seq<char>>;

/// The value of an event, with its text taken by its characters.
pub open spec fn model_of_event<P, D>(e: Event<P, D>) -> EventModel<P, D> {
    match e {
        InputEvent::KeyPress { kind, modifiers, handled } => InputEvent::KeyPress {
            kind,
            modifiers,
            handled,
        },
        InputEvent::KeyRelease { kind, modifiers, handled } => InputEvent::KeyRelease {
            kind,
            modifiers,
            handled,
        },
        InputEvent::ModifiersChange { modifiers } => InputEvent::ModifiersChange { modifiers },
        InputEvent::Text(t) => InputEvent::Text(t@),
        InputEvent::MouseWheel { delta, position, modifiers, handled } => InputEvent::MouseWheel {
            delta,
            position,
            modifiers,
            handled,
        },
        InputEvent::MousePress { button, position, modifiers, handled } => InputEvent::MousePress {
            button,
            position,
            modifiers,
            handled,
        },
        InputEvent::MouseRelease { button, position, modifiers, handled } =>
            InputEvent::MouseRelease { button, position, modifiers, handled },
        InputEvent::MouseMotion { button, delta, position, modifiers, handled } =>
            InputEvent::MouseMotion { button, delta, position, modifiers, handled },
        InputEvent::MouseEnter => InputEvent::MouseEnter,
        InputEvent::MouseLeave => InputEvent::MouseLeave,
    }
}

/// The values of a list of events.
pub open spec fn model_of_events<P, D>(v: Seq<Event<P, D>>) -> Seq<EventModel<P, D>> {
    v.map_values(|e: Event<P, D>| model_of_event(e))
}

/// An event of the window, as far as the library reads it. Positions and
/// scroll amounts come already in logical pixels; sizes come both in physical
/// and in logical pixels.
pub enum WindowInput<P, D> {
    Resized { width: u32, height: u32, logical_width: u32, logical_height: u32 },
    Occluded(bool),
    KeyboardInput { key: Option<KeyCode>, pressed: bool, text: Option<String> },
    MouseWheel { delta: D },
    MouseInput { pressed: bool, button: PointerButton },
    CursorMoved { position: P },
    CursorEntered,
    CursorLeft,
    Touch { id: u64, phase: TouchPhase, position: P },
    Other,
}

} // verus!
