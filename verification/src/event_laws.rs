use vstd::prelude::*;

use crate::frame_input_generator::FrameInputState;
use crate::input::{
    spec_is_printable_char, spec_translate_virtual_key_code, EventModel, InputEvent, KeyCode,
    Modifiers, MotionDelta, TouchPhase, WheelDelta, WindowInput,
};

verus! {

/// An event that carries a `handled` flag has it cleared; other events are
/// never handled.
pub open spec fn unhandled<P, D>(e: EventModel<P, D>) -> bool {
    match e {
        InputEvent::KeyPress { handled, .. } => !handled,
        InputEvent::KeyRelease { handled, .. } => !handled,
        InputEvent::MouseWheel { handled, .. } => !handled,
        InputEvent::MousePress { handled, .. } => !handled,
        InputEvent::MouseRelease { handled, .. } => !handled,
        InputEvent::MouseMotion { handled, .. } => !handled,
        _ => true,
    }
}

/// Every event in `t` past the first `n` is unhandled.
pub open spec fn new_events_unhandled<P, D>(t: Seq<EventModel<P, D>>, n: int) -> bool {
    forall|i: int| n <= i < t.len() ==> unhandled(#[trigger] t[i])
}

proof fn lemma_keyboard_unhandled<P, D>(
    s: FrameInputState<P, D>,
    key: Option<KeyCode>,
    pressed: bool,
    text: Option<Seq<char>>,
)
    ensures
        new_events_unhandled(s.after_key(key, pressed).events, s.events.len() as int),
        new_events_unhandled(s.after_key(key, pressed).after_text(text).events, s.events.len() as int),
{
    let k = s.after_key(key, pressed);
    assert(k.events.len() >= s.events.len());
    assert(new_events_unhandled(k.events, s.events.len() as int));
    let t = k.after_text(text);
    assert(t.events.len() >= k.events.len());
    assert forall|i: int| s.events.len() <= i < t.events.len() implies unhandled(
        #[trigger] t.events[i],
    ) by {
        if i < k.events.len() {
            assert(t.events[i] == k.events[i]);
        }
    }
}

proof fn lemma_touch_unhandled<P, D>(s: FrameInputState<P, D>, id: u64, phase: TouchPhase, position: P)
    ensures
        new_events_unhandled(s.after_touch(id, phase, position).events, s.events.len() as int),
{
    match phase {
        TouchPhase::Started => {},
        TouchPhase::Moved => {},
        _ => {},
    }
}

/// Every event that a window event queues is unhandled: the library never
/// marks an event handled, that is left to whoever consumes it.
pub proof fn lemma_queued_events_unhandled<P, D>(s: FrameInputState<P, D>, input: WindowInput<P, D>)
    ensures
        new_events_unhandled(s.step(input).events, s.events.len() as int),
{
    match input {
        WindowInput::KeyboardInput { key, pressed, text } => {
            lemma_keyboard_unhandled(
                s,
                key,
                pressed,
                match text {
                    Some(t) => Some(t@),
                    None => None,
                },
            );
        },
        WindowInput::Touch { id, phase, position } => {
            lemma_touch_unhandled(s, id, phase, position);
        },
        _ => {},
    }
}

/// A first finger moving while a second one is down pinches: it queues one
/// unhandled wheel event at the first finger's new position, whose delta is
/// the pinch from its last position to the new one about the second finger.
pub proof fn lemma_first_finger_pinches<P, D>(
    s: FrameInputState<P, D>,
    id: u64,
    last: P,
    second: P,
    position: P,
)
    requires
        s.finger_id == Some(id),
        s.cursor_pos == Some(last),
        s.secondary_cursor_pos == Some(second),
    ensures
        s.step(WindowInput::Touch { id, phase: TouchPhase::Moved, position }).events == s.events.push(
            InputEvent::MouseWheel {
                delta: WheelDelta::Pinch { anchor: second, from: last, to: position },
                position,
                modifiers: s.modifiers,
                handled: false,
            },
        ),
        s.step(WindowInput::Touch { id, phase: TouchPhase::Moved, position }).cursor_pos == Some(
            position,
        ),
        s.step(WindowInput::Touch { id, phase: TouchPhase::Moved, position }).secondary_cursor_pos
            == Some(second),
{
}

/// A second finger moving while the first one is down pinches: it queues
/// one unhandled wheel event at the first finger's position, whose delta is
/// the pinch from the second finger's last position to the new one about the
/// first finger.
pub proof fn lemma_second_finger_pinches<P, D>(
    s: FrameInputState<P, D>,
    id: u64,
    first: P,
    last: P,
    position: P,
)
    requires
        s.finger_id != Some(id),
        s.secondary_finger_id == Some(id),
        s.cursor_pos == Some(first),
        s.secondary_cursor_pos == Some(last),
    ensures
        s.step(WindowInput::Touch { id, phase: TouchPhase::Moved, position }).events == s.events.push(
            InputEvent::MouseWheel {
                delta: WheelDelta::Pinch { anchor: first, from: last, to: position },
                position: first,
                modifiers: s.modifiers,
                handled: false,
            },
        ),
        s.step(WindowInput::Touch { id, phase: TouchPhase::Moved, position }).secondary_cursor_pos
            == Some(position),
        s.step(WindowInput::Touch { id, phase: TouchPhase::Moved, position }).cursor_pos == Some(
            first,
        ),
{
}

/// A first finger moving alone drags with the left button: one unhandled
/// motion from its last position to the new one.
pub proof fn lemma_first_finger_drags<P, D>(s: FrameInputState<P, D>, id: u64, last: P, position: P)
    requires
        s.finger_id == Some(id),
        s.cursor_pos == Some(last),
        s.secondary_cursor_pos is None,
    ensures
        s.step(WindowInput::Touch { id, phase: TouchPhase::Moved, position }).events == s.events.push(
            InputEvent::MouseMotion {
                button: Some(crate::input::MouseButton::Left),
                delta: MotionDelta::Between { from: last, to: position },
                position,
                modifiers: s.modifiers,
                handled: false,
            },
        ),
{
}

/// The modifiers after a modifier key is pressed or released, on a platform
/// where `is_macos` says whether the super key is command.
pub open spec fn modifiers_after(m: Modifiers, code: KeyCode, pressed: bool, is_macos: bool) -> Modifiers {
    if code == KeyCode::ControlLeft || code == KeyCode::ControlRight {
        Modifiers { alt: m.alt, ctrl: pressed, shift: m.shift, command: if is_macos { m.command } else { pressed } }
    } else if code == KeyCode::AltLeft || code == KeyCode::AltRight {
        Modifiers { alt: pressed, ctrl: m.ctrl, shift: m.shift, command: m.command }
    } else if code == KeyCode::ShiftLeft || code == KeyCode::ShiftRight {
        Modifiers { alt: m.alt, ctrl: m.ctrl, shift: pressed, command: m.command }
    } else {
        Modifiers { alt: m.alt, ctrl: m.ctrl, shift: m.shift, command: pressed }
    }
}

/// Whether `code` is a modifier key on the given platform.
pub open spec fn is_modifier_key(code: KeyCode, is_macos: bool) -> bool {
    ||| code == KeyCode::ControlLeft
    ||| code == KeyCode::ControlRight
    ||| code == KeyCode::AltLeft
    ||| code == KeyCode::AltRight
    ||| code == KeyCode::ShiftLeft
    ||| code == KeyCode::ShiftRight
    ||| (is_macos && (code == KeyCode::SuperLeft || code == KeyCode::SuperRight))
}

/// Pressing or releasing a modifier key (without text) sets the modifiers
/// to their new state and queues exactly one event that carries it, on press
/// and on release alike.
pub proof fn lemma_modifier_key_reports_change<P, D>(
    s: FrameInputState<P, D>,
    code: KeyCode,
    pressed: bool,
)
    requires
        is_modifier_key(code, s.is_macos),
    ensures
        ({
            let m = modifiers_after(s.modifiers, code, pressed, s.is_macos);
            let t = s.step(WindowInput::KeyboardInput { key: Some(code), pressed, text: None });
            &&& t.modifiers == m
            &&& t.events == s.events.push(InputEvent::ModifiersChange { modifiers: m })
        }),
{
}

/// A key that reports a key queues one unhandled press or release carrying
/// the modifiers held, and leaves the modifiers as they are.
pub proof fn lemma_key_reports_key<P, D>(s: FrameInputState<P, D>, code: KeyCode, pressed: bool)
    requires
        spec_translate_virtual_key_code(code) is Some,
    ensures
        ({
            let kind = spec_translate_virtual_key_code(code)->0;
            let t = s.step(WindowInput::KeyboardInput { key: Some(code), pressed, text: None });
            &&& t.modifiers == s.modifiers
            &&& t.events == s.events.push(
                if pressed {
                    InputEvent::KeyPress { kind, modifiers: s.modifiers, handled: false }
                } else {
                    InputEvent::KeyRelease { kind, modifiers: s.modifiers, handled: false }
                },
            )
        }),
{
}

/// A sequence with an element satisfying `pred` filters to a non-empty one.
proof fn lemma_filter_nonempty<A>(t: Seq<A>, pred: spec_fn(A) -> bool, i: int)
    requires
        0 <= i < t.len(),
        pred(t[i]),
    ensures
        t.filter(pred).len() > 0,
    decreases t.len(),
{
    reveal(Seq::filter);
    if i < t.len() - 1 {
        lemma_filter_nonempty(t.drop_last(), pred, i);
        t.drop_last().lemma_filter_len(pred);
    }
}

/// Typed text with a printable character, while neither control nor
/// command is held, queues exactly one text of its printable characters,
/// whatever alt and shift are; a key that reports a key queues its press
/// first.
pub proof fn lemma_text_is_forwarded<P, D>(
    s: FrameInputState<P, D>,
    key: Option<KeyCode>,
    pressed: bool,
    text: String,
    i: int,
)
    requires
        !s.modifiers.ctrl,
        !s.modifiers.command,
        0 <= i < text@.len(),
        spec_is_printable_char(text@[i]),
        key is None || spec_translate_virtual_key_code(key->0) is Some,
    ensures
        ({
            let t = s.step(WindowInput::KeyboardInput { key, pressed, text: Some(text) });
            let typed = InputEvent::Text(text@.filter(|c: char| spec_is_printable_char(c)));
            &&& key is None ==> t.events == s.events.push(typed)
            &&& key is Some ==> t.events == s.events.push(
                if pressed {
                    InputEvent::KeyPress {
                        kind: spec_translate_virtual_key_code(key->0)->0,
                        modifiers: s.modifiers,
                        handled: false,
                    }
                } else {
                    InputEvent::KeyRelease {
                        kind: spec_translate_virtual_key_code(key->0)->0,
                        modifiers: s.modifiers,
                        handled: false,
                    }
                },
            ).push(typed)
        }),
{
    let k = s.after_key(key, pressed);
    assert(k.modifiers == s.modifiers);
    let m = k.modifiers;
    let p1 = |c: char| spec_is_printable_char(c) && !m.ctrl && !m.command;
    let p2 = |c: char| spec_is_printable_char(c);
    assert(p1 =~= p2);
    lemma_filter_nonempty(text@, p2, i);
}

/// A cursor move queues one unhandled motion to the new position with the
/// held button; its delta runs from the last cursor position, if there is
/// one, whether or not a button is held, and is zero otherwise.
pub proof fn lemma_cursor_motion<P, D>(s: FrameInputState<P, D>, position: P)
    ensures
        ({
            let t = s.step(WindowInput::CursorMoved { position });
            &&& t.cursor_pos == Some(position)
            &&& t.events == s.events.push(
                InputEvent::MouseMotion {
                    button: s.mouse_pressed,
                    delta: match s.cursor_pos {
                        Some(last) => MotionDelta::Between { from: last, to: position },
                        None => MotionDelta::Zero,
                    },
                    position,
                    modifiers: s.modifiers,
                    handled: false,
                },
            )
        }),
{
}

/// A wheel turn with a cursor queues one unhandled wheel event at the
/// cursor with the scroll as given.
pub proof fn lemma_wheel_at_cursor<P, D>(s: FrameInputState<P, D>, p: P, delta: D)
    requires
        s.cursor_pos == Some(p),
    ensures
        s.step(WindowInput::MouseWheel { delta }).events == s.events.push(
            InputEvent::MouseWheel {
                delta: WheelDelta::Scroll(delta),
                position: p,
                modifiers: s.modifiers,
                handled: false,
            },
        ),
{
}

} // verus!
