use three_d::frame_input_generator::FrameInputGenerator;
use three_d::input::{
    is_printable_char, translate_mouse_button, translate_virtual_key_code, Event, InputEvent, Key,
    KeyCode, Modifiers, MotionDelta, MouseButton, PointerButton, TouchPhase, WheelDelta,
    WindowInput,
};
use three_d::viewport::Viewport;

type Point = (f32, f32);
type Generator = FrameInputGenerator<Point, (f32, f32)>;

fn generator() -> Generator {
    FrameInputGenerator::new(800, 600, 400, 300, false)
}

fn key(g: &mut Generator, code: KeyCode, pressed: bool, text: Option<&str>) {
    g.handle_winit_window_event(WindowInput::KeyboardInput {
        key: Some(code),
        pressed,
        text: text.map(|t| t.to_string()),
    });
}

fn events(g: &mut Generator) -> Vec<Event<Point, (f32, f32)>> {
    g.generate().events
}

const NO_MODIFIERS: Modifiers = Modifiers { alt: false, ctrl: false, shift: false, command: false };

#[test]
fn printable_chars() {
    assert!(is_printable_char('a'));
    assert!(is_printable_char(' '));
    assert!(is_printable_char('é'));
    assert!(!is_printable_char('\n'));
    assert!(!is_printable_char('\u{1f}'));
    assert!(!is_printable_char('\u{7f}'));
    assert!(is_printable_char('\u{80}'));
    assert!(!is_printable_char('\u{e000}'));
    assert!(!is_printable_char('\u{f8ff}'));
    assert!(is_printable_char('\u{f900}'));
    assert!(!is_printable_char('\u{f0000}'));
    assert!(!is_printable_char('\u{10fffd}'));
    assert!(is_printable_char('\u{10fffe}'));
}

#[test]
fn key_translation() {
    assert_eq!(translate_virtual_key_code(KeyCode::KeyA), Some(Key::A));
    assert_eq!(translate_virtual_key_code(KeyCode::KeyZ), Some(Key::Z));
    assert_eq!(translate_virtual_key_code(KeyCode::Digit7), Some(Key::Num7));
    assert_eq!(translate_virtual_key_code(KeyCode::Numpad7), Some(Key::Num7));
    assert_eq!(translate_virtual_key_code(KeyCode::Enter), Some(Key::Enter));
    assert_eq!(translate_virtual_key_code(KeyCode::ControlLeft), None);
    assert_eq!(translate_virtual_key_code(KeyCode::Other), None);
}

#[test]
fn mouse_button_translation() {
    assert_eq!(translate_mouse_button(PointerButton::Left), Some(MouseButton::Left));
    assert_eq!(translate_mouse_button(PointerButton::Middle), Some(MouseButton::Middle));
    assert_eq!(translate_mouse_button(PointerButton::Right), Some(MouseButton::Right));
    assert_eq!(translate_mouse_button(PointerButton::Back), None);
    assert_eq!(translate_mouse_button(PointerButton::Other(7)), None);
}

#[test]
fn new_generator_state() {
    let mut g = generator();
    assert_eq!(g.viewport(), Viewport { x: 0, y: 0, width: 800, height: 600 });
    let f = g.generate();
    assert!(f.first_frame);
    assert!(f.events.is_empty());
    assert_eq!(f.window_width, 400);
    assert_eq!(f.window_height, 300);
    let f = g.generate();
    assert!(!f.first_frame);
}

#[test]
fn resize_updates_viewport_and_window_size() {
    let mut g = generator();
    g.handle_winit_window_event(WindowInput::Resized {
        width: 1000,
        height: 500,
        logical_width: 500,
        logical_height: 250,
    });
    let f = g.generate();
    assert_eq!(f.viewport, Viewport { x: 0, y: 0, width: 1000, height: 500 });
    assert_eq!(f.window_width, 500);
    assert_eq!(f.window_height, 250);
    assert!(f.events.is_empty());
}

#[test]
fn uncovering_marks_first_frame() {
    let mut g = generator();
    g.generate();
    g.handle_winit_window_event(WindowInput::Occluded(true));
    assert!(!g.generate().first_frame);
    g.handle_winit_window_event(WindowInput::Occluded(false));
    assert!(g.generate().first_frame);
    assert!(!g.generate().first_frame);
}

#[test]
fn key_press_and_release() {
    let mut g = generator();
    key(&mut g, KeyCode::KeyA, true, Some("a"));
    key(&mut g, KeyCode::KeyA, false, None);
    let e = events(&mut g);
    assert_eq!(e.len(), 3);
    assert!(matches!(e[0], InputEvent::KeyPress { kind: Key::A, modifiers: NO_MODIFIERS, handled: false }));
    assert!(matches!(&e[1], InputEvent::Text(t) if t == "a"));
    assert!(matches!(e[2], InputEvent::KeyRelease { kind: Key::A, modifiers: NO_MODIFIERS, handled: false }));
}

#[test]
fn control_sets_ctrl_and_command_outside_macos() {
    let mut g = generator();
    key(&mut g, KeyCode::ControlLeft, true, None);
    key(&mut g, KeyCode::KeyC, true, Some("c"));
    key(&mut g, KeyCode::ControlRight, false, None);
    let held = Modifiers { alt: false, ctrl: true, shift: false, command: true };
    let e = events(&mut g);
    assert_eq!(e.len(), 3);
    assert!(matches!(e[0], InputEvent::ModifiersChange { modifiers } if modifiers == held));
    // no text while control is held
    assert!(matches!(e[1], InputEvent::KeyPress { kind: Key::C, modifiers, .. } if modifiers == held));
    assert!(matches!(e[2], InputEvent::ModifiersChange { modifiers: NO_MODIFIERS }));
}

#[test]
fn super_is_command_on_macos_only() {
    let mut mac: Generator = FrameInputGenerator::new(10, 10, 10, 10, true);
    key(&mut mac, KeyCode::ControlLeft, true, None);
    key(&mut mac, KeyCode::SuperLeft, true, None);
    let e = events(&mut mac);
    assert_eq!(e.len(), 2);
    assert!(matches!(e[0], InputEvent::ModifiersChange { modifiers: Modifiers { ctrl: true, command: false, .. } }));
    assert!(matches!(e[1], InputEvent::ModifiersChange { modifiers: Modifiers { ctrl: true, command: true, .. } }));

    let mut other = generator();
    key(&mut other, KeyCode::SuperLeft, true, None);
    assert!(events(&mut other).is_empty());
}

#[test]
fn alt_and_shift() {
    let mut g = generator();
    key(&mut g, KeyCode::AltRight, true, None);
    key(&mut g, KeyCode::ShiftLeft, true, Some(""));
    key(&mut g, KeyCode::AltLeft, false, None);
    let e = events(&mut g);
    assert_eq!(e.len(), 3);
    assert!(matches!(e[0], InputEvent::ModifiersChange { modifiers: Modifiers { alt: true, shift: false, .. } }));
    assert!(matches!(e[1], InputEvent::ModifiersChange { modifiers: Modifiers { alt: true, shift: true, .. } }));
    assert!(matches!(e[2], InputEvent::ModifiersChange { modifiers: Modifiers { alt: false, shift: true, .. } }));
}

#[test]
fn text_keeps_only_printable_chars() {
    let mut g = generator();
    g.handle_winit_window_event(WindowInput::KeyboardInput {
        key: None,
        pressed: true,
        text: Some("a\u{8}b\u{e000}c\r".to_string()),
    });
    g.handle_winit_window_event(WindowInput::KeyboardInput {
        key: Some(KeyCode::Other),
        pressed: true,
        text: Some("\u{1b}".to_string()),
    });
    let e = events(&mut g);
    assert_eq!(e.len(), 1);
    assert!(matches!(&e[0], InputEvent::Text(t) if t == "abc"));
}

#[test]
fn mouse_needs_a_cursor() {
    let mut g = generator();
    g.handle_winit_window_event(WindowInput::MouseWheel { delta: (1.0, 2.0) });
    g.handle_winit_window_event(WindowInput::MouseInput { pressed: true, button: PointerButton::Left });
    assert!(events(&mut g).is_empty());
}

#[test]
fn cursor_motion_press_wheel_release() {
    let mut g = generator();
    g.handle_winit_window_event(WindowInput::CursorEntered);
    g.handle_winit_window_event(WindowInput::CursorMoved { position: (1.0, 2.0) });
    g.handle_winit_window_event(WindowInput::MouseInput { pressed: true, button: PointerButton::Right });
    g.handle_winit_window_event(WindowInput::CursorMoved { position: (4.0, 6.0) });
    g.handle_winit_window_event(WindowInput::MouseWheel { delta: (0.0, 24.0) });
    g.handle_winit_window_event(WindowInput::MouseInput { pressed: false, button: PointerButton::Right });
    g.handle_winit_window_event(WindowInput::MouseInput { pressed: true, button: PointerButton::Forward });
    g.handle_winit_window_event(WindowInput::CursorLeft);
    let e = events(&mut g);
    assert_eq!(e.len(), 7);
    assert!(matches!(e[0], InputEvent::MouseEnter));
    assert!(matches!(e[1], InputEvent::MouseMotion { button: None, delta: MotionDelta::Zero, position: (1.0, 2.0), .. }));
    assert!(matches!(e[2], InputEvent::MousePress { button: MouseButton::Right, position: (1.0, 2.0), .. }));
    assert!(matches!(
        e[3],
        InputEvent::MouseMotion {
            button: Some(MouseButton::Right),
            delta: MotionDelta::Between { from: (1.0, 2.0), to: (4.0, 6.0) },
            position: (4.0, 6.0),
            ..
        }
    ));
    assert!(matches!(e[4], InputEvent::MouseWheel { delta: WheelDelta::Scroll((0.0, 24.0)), position: (4.0, 6.0), .. }));
    assert!(matches!(e[5], InputEvent::MouseRelease { button: MouseButton::Right, position: (4.0, 6.0), .. }));
    assert!(matches!(e[6], InputEvent::MouseLeave));
}

#[test]
fn cursor_left_releases_held_button() {
    let mut g = generator();
    g.handle_winit_window_event(WindowInput::CursorMoved { position: (1.0, 1.0) });
    g.handle_winit_window_event(WindowInput::MouseInput { pressed: true, button: PointerButton::Left });
    g.handle_winit_window_event(WindowInput::CursorLeft);
    g.handle_winit_window_event(WindowInput::CursorMoved { position: (2.0, 2.0) });
    let e = events(&mut g);
    assert_eq!(e.len(), 4);
    assert!(matches!(e[3], InputEvent::MouseMotion { button: None, .. }));
}

#[test]
fn tap_is_a_click() {
    let mut g = generator();
    g.handle_winit_window_event(WindowInput::Touch { id: 5, phase: TouchPhase::Started, position: (3.0, 4.0) });
    g.handle_winit_window_event(WindowInput::Touch { id: 5, phase: TouchPhase::Ended, position: (3.5, 4.5) });
    // the tap left no cursor behind
    g.handle_winit_window_event(WindowInput::MouseWheel { delta: (1.0, 1.0) });
    let e = events(&mut g);
    assert_eq!(e.len(), 2);
    assert!(matches!(e[0], InputEvent::MousePress { button: MouseButton::Left, position: (3.0, 4.0), .. }));
    assert!(matches!(e[1], InputEvent::MouseRelease { button: MouseButton::Left, position: (3.5, 4.5), .. }));
}

#[test]
fn one_finger_drags() {
    let mut g = generator();
    g.handle_winit_window_event(WindowInput::Touch { id: 1, phase: TouchPhase::Started, position: (0.0, 0.0) });
    g.handle_winit_window_event(WindowInput::Touch { id: 1, phase: TouchPhase::Moved, position: (2.0, 1.0) });
    g.handle_winit_window_event(WindowInput::Touch { id: 9, phase: TouchPhase::Moved, position: (7.0, 7.0) });
    g.handle_winit_window_event(WindowInput::Touch { id: 1, phase: TouchPhase::Cancelled, position: (2.0, 1.0) });
    let e = events(&mut g);
    assert_eq!(e.len(), 3);
    assert!(matches!(
        e[1],
        InputEvent::MouseMotion {
            button: Some(MouseButton::Left),
            delta: MotionDelta::Between { from: (0.0, 0.0), to: (2.0, 1.0) },
            position: (2.0, 1.0),
            ..
        }
    ));
    assert!(matches!(e[2], InputEvent::MouseRelease { button: MouseButton::Left, position: (2.0, 1.0), .. }));
}

#[test]
fn two_fingers_pinch() {
    let mut g = generator();
    g.handle_winit_window_event(WindowInput::Touch { id: 1, phase: TouchPhase::Started, position: (0.0, 0.0) });
    g.handle_winit_window_event(WindowInput::Touch { id: 2, phase: TouchPhase::Started, position: (10.0, 0.0) });
    // a third finger is ignored
    g.handle_winit_window_event(WindowInput::Touch { id: 3, phase: TouchPhase::Started, position: (5.0, 5.0) });
    g.handle_winit_window_event(WindowInput::Touch { id: 1, phase: TouchPhase::Moved, position: (-2.0, 0.0) });
    g.handle_winit_window_event(WindowInput::Touch { id: 2, phase: TouchPhase::Moved, position: (12.0, 0.0) });
    g.handle_winit_window_event(WindowInput::Touch { id: 2, phase: TouchPhase::Ended, position: (12.0, 0.0) });
    g.handle_winit_window_event(WindowInput::Touch { id: 1, phase: TouchPhase::Moved, position: (-3.0, 0.0) });
    let e = events(&mut g);
    assert_eq!(e.len(), 4);
    assert!(matches!(e[0], InputEvent::MousePress { position: (0.0, 0.0), .. }));
    assert!(matches!(
        e[1],
        InputEvent::MouseWheel {
            delta: WheelDelta::Pinch { anchor: (10.0, 0.0), from: (0.0, 0.0), to: (-2.0, 0.0) },
            position: (-2.0, 0.0),
            ..
        }
    ));
    assert!(matches!(
        e[2],
        InputEvent::MouseWheel {
            delta: WheelDelta::Pinch { anchor: (-2.0, 0.0), from: (10.0, 0.0), to: (12.0, 0.0) },
            position: (-2.0, 0.0),
            ..
        }
    ));
    assert!(matches!(
        e[3],
        InputEvent::MouseMotion { delta: MotionDelta::Between { from: (-2.0, 0.0), to: (-3.0, 0.0) }, .. }
    ));
}

#[test]
fn second_finger_after_first_lifts() {
    let mut g = generator();
    g.handle_winit_window_event(WindowInput::Touch { id: 1, phase: TouchPhase::Started, position: (0.0, 0.0) });
    g.handle_winit_window_event(WindowInput::Touch { id: 2, phase: TouchPhase::Started, position: (5.0, 0.0) });
    g.handle_winit_window_event(WindowInput::Touch { id: 1, phase: TouchPhase::Ended, position: (0.0, 0.0) });
    // the second finger moves with no first finger: nothing is reported
    g.handle_winit_window_event(WindowInput::Touch { id: 2, phase: TouchPhase::Moved, position: (6.0, 0.0) });
    // a new touch becomes the first finger
    g.handle_winit_window_event(WindowInput::Touch { id: 3, phase: TouchPhase::Started, position: (1.0, 1.0) });
    g.handle_winit_window_event(WindowInput::Touch { id: 2, phase: TouchPhase::Moved, position: (8.0, 0.0) });
    let e = events(&mut g);
    assert_eq!(e.len(), 4);
    assert!(matches!(e[2], InputEvent::MousePress { position: (1.0, 1.0), .. }));
    assert!(matches!(
        e[3],
        InputEvent::MouseWheel {
            delta: WheelDelta::Pinch { anchor: (1.0, 1.0), from: (6.0, 0.0), to: (8.0, 0.0) },
            position: (1.0, 1.0),
            ..
        }
    ));
}

#[test]
fn other_events_change_nothing() {
    let mut g = generator();
    g.generate();
    g.handle_winit_window_event(WindowInput::Other);
    let f = g.generate();
    assert!(f.events.is_empty());
    assert!(!f.first_frame);
}
