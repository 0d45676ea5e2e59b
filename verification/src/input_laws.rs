use vstd::prelude::*;

use crate::frame_input_generator::{forwarded_text, FrameInputState};
use crate::input::{
    spec_is_printable_char, spec_translate_mouse_button, spec_translate_virtual_key_code,
    EventModel, InputEvent, KeyCode, MouseButton, PointerButton, TouchPhase, WindowInput,
};

verus! {

/// `t` extends `s` by at most `n` events, keeping those of `s` in order.
pub open spec fn appends_at_most<P, D>(
    s: Seq<EventModel<P, D>>,
    t: Seq<EventModel<P, D>>,
    n: nat,
) -> bool {
    &&& s.len() <= t.len() <= s.len() + n
    &&& t.subrange(0, s.len() as int) == s
}

/// Every window event keeps each followed touch with a position.
pub proof fn lemma_step_keeps_wf<P, D>(s: FrameInputState<P, D>, input: WindowInput<P, D>)
    requires
        s.wf(),
    ensures
        s.step(input).wf(),
{
}

/// `t` is `s`, or `s` with one more event at the end.
spec fn grows_by_at_most_one<E>(s: Seq<E>, t: Seq<E>) -> bool {
    t == s || t == s.push(t.last())
}

proof fn lemma_grows_appends<P, D>(s: Seq<EventModel<P, D>>, t: Seq<EventModel<P, D>>)
    requires
        grows_by_at_most_one(s, t),
    ensures
        appends_at_most(s, t, 1),
{
    assert(t.subrange(0, s.len() as int) =~= s);
}

proof fn lemma_appends_chain<P, D>(
    a: Seq<EventModel<P, D>>,
    b: Seq<EventModel<P, D>>,
    c: Seq<EventModel<P, D>>,
)
    requires
        appends_at_most(a, b, 1),
        appends_at_most(b, c, 1),
    ensures
        appends_at_most(a, c, 2),
{
    assert(c.subrange(0, a.len() as int) =~= b.subrange(0, a.len() as int));
}

proof fn lemma_one_event<P, D>(s: FrameInputState<P, D>, input: WindowInput<P, D>)
    requires
        !(input is KeyboardInput),
    ensures
        grows_by_at_most_one(s.events, s.step(input).events),
{
    match input {
        WindowInput::Touch { id, phase, position } => {
            match phase {
                TouchPhase::Started => {},
                TouchPhase::Moved => {},
                _ => {},
            }
        },
        _ => {},
    }
}

/// A window event never drops or reorders queued events; it queues at most
/// two new ones (a key event and a text), and at most one unless it is a
/// keyboard event.
pub proof fn lemma_step_appends<P, D>(s: FrameInputState<P, D>, input: WindowInput<P, D>)
    ensures
        appends_at_most(s.events, s.step(input).events, 2),
        !(input is KeyboardInput) ==> appends_at_most(s.events, s.step(input).events, 1),
{
    match input {
        WindowInput::KeyboardInput { key, pressed, text } => {
            let k = s.after_key(key, pressed);
            let tt = match text {
                Some(t) => Some(t@),
                None => None,
            };
            assert(grows_by_at_most_one(s.events, k.events));
            assert(grows_by_at_most_one(k.events, k.after_text(tt).events));
            lemma_grows_appends(s.events, k.events);
            lemma_grows_appends(k.events, k.after_text(tt).events);
            lemma_appends_chain(s.events, k.events, k.after_text(tt).events);
        },
        _ => {
            lemma_one_event(s, input);
            lemma_grows_appends(s.events, s.step(input).events);
            assert(s.step(input).events.subrange(0, s.events.len() as int) =~= s.events);
        },
    }
}

/// A queued text is never empty and holds printable characters only; while
/// control or command is held, typing queues no text.
pub proof fn lemma_text_is_printable<P, D>(s: FrameInputState<P, D>, text: Option<Seq<char>>)
    ensures
        (s.modifiers.ctrl || s.modifiers.command) ==> s.after_text(text) == s,
        s.after_text(text) == s || s.after_text(text).events.len() == s.events.len() + 1,
        s.after_text(text).events.len() == s.events.len() + 1 ==> {
            let e = s.after_text(text).events.last();
            &&& e is Text
            &&& e->Text_0.len() > 0
            &&& forall|i: int|
                0 <= i < e->Text_0.len() ==> spec_is_printable_char(#[trigger] e->Text_0[i])
        },
{
    if let Some(t) = text {
        let f = forwarded_text(t, s.modifiers);
        let pred = |c: char| spec_is_printable_char(c) && !s.modifiers.ctrl && !s.modifiers.command;
        if s.modifiers.ctrl || s.modifiers.command {
            lemma_filter_none(t, pred);
        }
        assert forall|i: int| 0 <= i < f.len() implies spec_is_printable_char(#[trigger] f[i]) by {
            t.lemma_filter_pred(pred, i);
        }
    }
}

/// Filtering by a predicate that holds of nothing leaves nothing.
proof fn lemma_filter_none<A>(t: Seq<A>, pred: spec_fn(A) -> bool)
    requires
        forall|a: A| !#[trigger] pred(a),
    ensures
        t.filter(pred).len() == 0,
    decreases t.len(),
{
    reveal(Seq::filter);
    if t.len() > 0 {
        lemma_filter_none(t.drop_last(), pred);
    }
}

/// Without a cursor position, wheel turns and mouse buttons change nothing.
pub proof fn lemma_no_cursor_no_mouse_events<P, D>(
    s: FrameInputState<P, D>,
    delta: D,
    pressed: bool,
    button: PointerButton,
)
    requires
        s.cursor_pos is None,
    ensures
        s.step(WindowInput::MouseWheel { delta }) == s,
        s.step(WindowInput::MouseInput { pressed, button }) == s,
{
}

/// The held mouse button follows the presses and releases at the cursor,
/// and is forgotten when the cursor leaves the window.
pub proof fn lemma_mouse_pressed_tracks_buttons<P, D>(
    s: FrameInputState<P, D>,
    pressed: bool,
    button: PointerButton,
)
    ensures
        s.cursor_pos is Some && spec_translate_mouse_button(button) is Some ==> s.step(
            WindowInput::MouseInput { pressed, button },
        ).mouse_pressed == (if pressed {
            spec_translate_mouse_button(button)
        } else {
            None
        }),
        s.step(WindowInput::CursorLeft).mouse_pressed is None,
{
}

/// The modifiers follow the modifier keys: control (and, outside macOS,
/// command), alt and shift are held exactly while their key is down, and on
/// macOS the super key holds command.
pub proof fn lemma_modifiers_track_keys<P, D>(
    s: FrameInputState<P, D>,
    code: KeyCode,
    pressed: bool,
)
    ensures
        ({
            let m = s.after_key(Some(code), pressed).modifiers;
            &&& (code == KeyCode::ControlLeft || code == KeyCode::ControlRight) ==> m.ctrl == pressed
                && (!s.is_macos ==> m.command == pressed)
            &&& (code == KeyCode::AltLeft || code == KeyCode::AltRight) ==> m.alt == pressed
            &&& (code == KeyCode::ShiftLeft || code == KeyCode::ShiftRight) ==> m.shift == pressed
            &&& ((code == KeyCode::SuperLeft || code == KeyCode::SuperRight) && s.is_macos)
                ==> m.command == pressed
            &&& spec_translate_virtual_key_code(code) is Some ==> m == s.modifiers
        }),
{
}

/// A digit key and the numpad key of the same digit report the same key;
/// modifier keys report no key.
pub proof fn lemma_digits_and_numpad_agree()
    ensures
        spec_translate_virtual_key_code(KeyCode::Digit0) == spec_translate_virtual_key_code(
            KeyCode::Numpad0,
        ),
        spec_translate_virtual_key_code(KeyCode::Digit1) == spec_translate_virtual_key_code(
            KeyCode::Numpad1,
        ),
        spec_translate_virtual_key_code(KeyCode::Digit2) == spec_translate_virtual_key_code(
            KeyCode::Numpad2,
        ),
        spec_translate_virtual_key_code(KeyCode::Digit3) == spec_translate_virtual_key_code(
            KeyCode::Numpad3,
        ),
        spec_translate_virtual_key_code(KeyCode::Digit4) == spec_translate_virtual_key_code(
            KeyCode::Numpad4,
        ),
        spec_translate_virtual_key_code(KeyCode::Digit5) == spec_translate_virtual_key_code(
            KeyCode::Numpad5,
        ),
        spec_translate_virtual_key_code(KeyCode::Digit6) == spec_translate_virtual_key_code(
            KeyCode::Numpad6,
        ),
        spec_translate_virtual_key_code(KeyCode::Digit7) == spec_translate_virtual_key_code(
            KeyCode::Numpad7,
        ),
        spec_translate_virtual_key_code(KeyCode::Digit8) == spec_translate_virtual_key_code(
            KeyCode::Numpad8,
        ),
        spec_translate_virtual_key_code(KeyCode::Digit9) == spec_translate_virtual_key_code(
            KeyCode::Numpad9,
        ),
        spec_translate_virtual_key_code(KeyCode::ControlLeft) is None,
        spec_translate_virtual_key_code(KeyCode::ControlRight) is None,
        spec_translate_virtual_key_code(KeyCode::AltLeft) is None,
        spec_translate_virtual_key_code(KeyCode::AltRight) is None,
        spec_translate_virtual_key_code(KeyCode::ShiftLeft) is None,
        spec_translate_virtual_key_code(KeyCode::ShiftRight) is None,
        spec_translate_virtual_key_code(KeyCode::SuperLeft) is None,
        spec_translate_virtual_key_code(KeyCode::SuperRight) is None,
{
}

/// A first finger that touches and lifts is a left click at the two
/// positions: it queues a press and a release and leaves no cursor and no
/// finger behind.
pub proof fn lemma_tap_is_click<P, D>(s: FrameInputState<P, D>, id: u64, down: P, up: P)
    requires
        s.finger_id is None,
    ensures
        ({
            let t = s.step(WindowInput::Touch { id, phase: TouchPhase::Started, position: down }).step(
                WindowInput::Touch { id, phase: TouchPhase::Ended, position: up },
            );
            &&& t.events == s.events.push(
                InputEvent::MousePress {
                    button: MouseButton::Left,
                    position: down,
                    modifiers: s.modifiers,
                    handled: false,
                },
            ).push(
                InputEvent::MouseRelease {
                    button: MouseButton::Left,
                    position: up,
                    modifiers: s.modifiers,
                    handled: false,
                },
            )
            &&& t.cursor_pos is None
            &&& t.finger_id is None
            &&& t.secondary_finger_id == s.secondary_finger_id
            &&& t.secondary_cursor_pos == s.secondary_cursor_pos
        }),
{
}

/// Uncovering the window marks the next frame as a first frame.
pub proof fn lemma_uncover_marks_first_frame<P, D>(s: FrameInputState<P, D>)
    ensures
        s.step(WindowInput::Occluded(false)).first_frame,
        s.step(WindowInput::Occluded(false)).events == s.events,
        s.step(WindowInput::Occluded(true)) == s,
{
}

} // verus!
