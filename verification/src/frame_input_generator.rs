use vstd::prelude::*;

use crate::input::{
    is_printable_char, model_of_event, model_of_events, spec_is_printable_char,
    spec_translate_mouse_button, spec_translate_virtual_key_code, translate_mouse_button,
    translate_virtual_key_code, Event, EventModel, InputEvent, KeyCode, Modifiers, MotionDelta,
    MouseButton, PointerButton, TouchPhase, WheelDelta, WindowInput, no_modifiers,
};
use crate::viewport::{viewport_at_origo, Viewport};

verus! {

/// The value of a frame input generator.
pub struct FrameInputState<P, D> {
    pub first_frame: bool,
    pub events: Seq<EventModel<P, D>>,
    pub viewport: Viewport,
    pub window_width: u32,
    pub window_height: u32,
    pub cursor_pos: Option<P>,
    pub finger_id: Option<u64>,
    pub secondary_cursor_pos: Option<P>,
    pub secondary_finger_id: Option<u64>,
    pub modifiers: Modifiers,
    pub mouse_pressed: Option<MouseButton>,
    pub is_macos: bool,
}

/// The characters of a typed text that are forwarded: the printable ones,
/// and none while control or command is held.
pub open spec fn forwarded_text(text: Seq<char>, m: Modifiers) -> Seq<char> {
    text.filter(|c: char| spec_is_printable_char(c) && !m.ctrl && !m.command)
}

impl<P, D> FrameInputState<P, D> {
    /// A touch that is followed always has a position.
    pub open spec fn wf(self) -> bool {
        &&& self.finger_id is Some ==> self.cursor_pos is Some
        &&& self.secondary_finger_id is Some ==> self.secondary_cursor_pos is Some
    }

    /// The state after `e` was queued.
    pub open spec fn emit(self, e: EventModel<P, D>) -> Self {
        FrameInputState { events: self.events.push(e), ..self }
    }

    /// The state after the modifiers became `m` and the change was queued.
    pub open spec fn change_modifiers(self, m: Modifiers) -> Self {
        FrameInputState { modifiers: m, ..self }.emit(InputEvent::ModifiersChange { modifiers: m })
    }

    /// The state when a window of `width` by `height` physical pixels was
    /// created: no event queued, nothing pressed, the next frame is the first.
    pub open spec fn initial(
        width: u32,
        height: u32,
        logical_width: u32,
        logical_height: u32,
        is_macos: bool,
    ) -> Self {
        FrameInputState {
            first_frame: true,
            events: Seq::empty(),
            viewport: viewport_at_origo(width, height),
            window_width: logical_width,
            window_height: logical_height,
            cursor_pos: None,
            finger_id: None,
            secondary_cursor_pos: None,
            secondary_finger_id: None,
            modifiers: no_modifiers(),
            mouse_pressed: None,
            is_macos,
        }
    }

    /// A resize: the viewport covers the new physical size, the window size
    /// is the new logical size.
    pub open spec fn after_resize(
        self,
        width: u32,
        height: u32,
        logical_width: u32,
        logical_height: u32,
    ) -> Self {
        FrameInputState {
            viewport: viewport_at_origo(width, height),
            window_width: logical_width,
            window_height: logical_height,
            ..self
        }
    }

    /// A key press or release of the physical key `key`.
    pub open spec fn after_key(self, key: Option<KeyCode>, pressed: bool) -> Self {
        match key {
            None => self,
            Some(code) => match spec_translate_virtual_key_code(code) {
                Some(kind) => self.emit(
                    if pressed {
                        InputEvent::KeyPress { kind, modifiers: self.modifiers, handled: false }
                    } else {
                        InputEvent::KeyRelease { kind, modifiers: self.modifiers, handled: false }
                    },
                ),
                None => {
                    let m = self.modifiers;
                    if code == KeyCode::ControlLeft || code == KeyCode::ControlRight {
                        self.change_modifiers(
                            Modifiers {
                                ctrl: pressed,
                                command: if self.is_macos {
                                    m.command
                                } else {
                                    pressed
                                },
                                ..m
                            },
                        )
                    } else if code == KeyCode::AltLeft || code == KeyCode::AltRight {
                        self.change_modifiers(Modifiers { alt: pressed, ..m })
                    } else if code == KeyCode::ShiftLeft || code == KeyCode::ShiftRight {
                        self.change_modifiers(Modifiers { shift: pressed, ..m })
                    } else if (code == KeyCode::SuperLeft || code == KeyCode::SuperRight)
                        && self.is_macos {
                        self.change_modifiers(Modifiers { command: pressed, ..m })
                    } else {
                        self
                    }
                },
            },
        }
    }

    /// The text that a key stroke typed: its forwarded characters, if any,
    /// are queued as one text event.
    pub open spec fn after_text(self, text: Option<Seq<char>>) -> Self {
        match text {
            None => self,
            Some(t) => {
                let s = forwarded_text(t, self.modifiers);
                if s.len() > 0 {
                    self.emit(InputEvent::Text(s))
                } else {
                    self
                }
            },
        }
    }

    /// A turn of the wheel: reported at the cursor, if there is one.
    pub open spec fn after_wheel(self, delta: D) -> Self {
        match self.cursor_pos {
            Some(position) => self.emit(
                InputEvent::MouseWheel {
                    delta: WheelDelta::Scroll(delta),
                    position,
                    modifiers: self.modifiers,
                    handled: false,
                },
            ),
            None => self,
        }
    }

    /// A press or release of a mouse button: reported at the cursor, if
    /// there is one, for the buttons the library tells apart.
    pub open spec fn after_mouse_input(self, pressed: bool, button: PointerButton) -> Self {
        match self.cursor_pos {
            Some(position) => match spec_translate_mouse_button(button) {
                Some(b) => if pressed {
                    FrameInputState { mouse_pressed: Some(b), ..self }.emit(
                        InputEvent::MousePress {
                            button: b,
                            position,
                            modifiers: self.modifiers,
                            handled: false,
                        },
                    )
                } else {
                    FrameInputState { mouse_pressed: None, ..self }.emit(
                        InputEvent::MouseRelease {
                            button: b,
                            position,
                            modifiers: self.modifiers,
                            handled: false,
                        },
                    )
                },
                None => self,
            },
            None => self,
        }
    }

    /// A move of the cursor to `position`: a motion from the last position,
    /// if there was one, with the held button.
    pub open spec fn after_cursor_moved(self, position: P) -> Self {
        let delta = match self.cursor_pos {
            Some(last) => MotionDelta::Between { from: last, to: position },
            None => MotionDelta::Zero,
        };
        FrameInputState { cursor_pos: Some(position), ..self }.emit(
            InputEvent::MouseMotion {
                button: self.mouse_pressed,
                delta,
                position,
                modifiers: self.modifiers,
                handled: false,
            },
        )
    }

    /// The cursor left the window: no button is held any more.
    pub open spec fn after_cursor_left(self) -> Self {
        FrameInputState { mouse_pressed: None, ..self }.emit(InputEvent::MouseLeave)
    }

    /// A new touch: the first finger acts as the left mouse button, a second
    /// one is followed for pinching, any further one is ignored.
    pub open spec fn after_touch_started(self, id: u64, position: P) -> Self {
        if self.finger_id is None {
            FrameInputState { cursor_pos: Some(position), finger_id: Some(id), ..self }.emit(
                InputEvent::MousePress {
                    button: MouseButton::Left,
                    position,
                    modifiers: self.modifiers,
                    handled: false,
                },
            )
        } else if self.secondary_finger_id is None {
            FrameInputState {
                secondary_cursor_pos: Some(position),
                secondary_finger_id: Some(id),
                ..self
            }
        } else {
            self
        }
    }

    /// A touch ended or was cancelled: the first finger releases the left
    /// mouse button, the second one is forgotten.
    pub open spec fn after_touch_ended(self, id: u64, position: P) -> Self {
        if self.finger_id == Some(id) {
            FrameInputState { cursor_pos: None, finger_id: None, ..self }.emit(
                InputEvent::MouseRelease {
                    button: MouseButton::Left,
                    position,
                    modifiers: self.modifiers,
                    handled: false,
                },
            )
        } else if self.secondary_finger_id == Some(id) {
            FrameInputState { secondary_cursor_pos: None, secondary_finger_id: None, ..self }
        } else {
            self
        }
    }

    /// A touch moved: the first finger alone drags with the left button,
    /// either finger moving while the other one is down pinches.
    pub open spec fn after_touch_moved(self, id: u64, position: P) -> Self {
        if self.finger_id == Some(id) {
            let last = self.cursor_pos->0;
            let moved = FrameInputState { cursor_pos: Some(position), ..self };
            match self.secondary_cursor_pos {
                Some(p) => moved.emit(
                    InputEvent::MouseWheel {
                        delta: WheelDelta::Pinch { anchor: p, from: last, to: position },
                        position,
                        modifiers: self.modifiers,
                        handled: false,
                    },
                ),
                None => moved.emit(
                    InputEvent::MouseMotion {
                        button: Some(MouseButton::Left),
                        delta: MotionDelta::Between { from: last, to: position },
                        position,
                        modifiers: self.modifiers,
                        handled: false,
                    },
                ),
            }
        } else if self.secondary_finger_id == Some(id) {
            let last = self.secondary_cursor_pos->0;
            let moved = FrameInputState { secondary_cursor_pos: Some(position), ..self };
            match self.cursor_pos {
                Some(p) => moved.emit(
                    InputEvent::MouseWheel {
                        delta: WheelDelta::Pinch { anchor: p, from: last, to: position },
                        position: p,
                        modifiers: self.modifiers,
                        handled: false,
                    },
                ),
                None => moved,
            }
        } else {
            self
        }
    }

    /// A touch event.
    pub open spec fn after_touch(self, id: u64, phase: TouchPhase, position: P) -> Self {
        match phase {
            TouchPhase::Started => self.after_touch_started(id, position),
            TouchPhase::Ended | TouchPhase::Cancelled => self.after_touch_ended(id, position),
            TouchPhase::Moved => self.after_touch_moved(id, position),
        }
    }

    /// The state after the window reported `input`.
    pub open spec fn step(self, input: WindowInput<P, D>) -> Self {
        match input {
            WindowInput::Resized { width, height, logical_width, logical_height } => self.after_resize(
                width,
                height,
                logical_width,
                logical_height,
            ),
            WindowInput::Occluded(occluded) => if !occluded {
                FrameInputState { first_frame: true, ..self }
            } else {
                self
            },
            WindowInput::KeyboardInput { key, pressed, text } => self.after_key(key, pressed).after_text(
                match text {
                    Some(t) => Some(t@),
                    None => None,
                },
            ),
            WindowInput::MouseWheel { delta } => self.after_wheel(delta),
            WindowInput::MouseInput { pressed, button } => self.after_mouse_input(pressed, button),
            WindowInput::CursorMoved { position } => self.after_cursor_moved(position),
            WindowInput::CursorEntered => self.emit(InputEvent::MouseEnter),
            WindowInput::CursorLeft => self.after_cursor_left(),
            WindowInput::Touch { id, phase, position } => self.after_touch(id, phase, position),
            WindowInput::Other => self,
        }
    }
}

/// Appends `c` to `s` (`String::push`).
#[verifier::external_body]
fn push_char(s: &mut String, c: char)
    ensures
        final(s)@ == old(s)@.push(c),
{
    s.push(c);
}

/// Collects the window's events of one frame and the window's state that a
/// frame is drawn with.
pub struct FrameInputGenerator<P, D> {
    first_frame: bool,
    events: Vec<Event<P, D>>,
    viewport: Viewport,
    window_width: u32,
    window_height: u32,
    cursor_pos: Option<P>,
    finger_id: Option<u64>,
    secondary_cursor_pos: Option<P>,
    secondary_finger_id: Option<u64>,
    modifiers: Modifiers,
    mouse_pressed: Option<MouseButton>,
    is_macos: bool,
}

impl<P, D> View for FrameInputGenerator<P, D> {
    type V = FrameInputState<P, D>;

    closed spec fn view(&self) -> FrameInputState<P, D> {
        FrameInputState {
            first_frame: self.first_frame,
            events: model_of_events(self.events@),
            viewport: self.viewport,
            window_width: self.window_width,
            window_height: self.window_height,
            cursor_pos: self.cursor_pos,
            finger_id: self.finger_id,
            secondary_cursor_pos: self.secondary_cursor_pos,
            secondary_finger_id: self.secondary_finger_id,
            modifiers: self.modifiers,
            mouse_pressed: self.mouse_pressed,
            is_macos: self.is_macos,
        }
    }
}

/// The input of one frame.
pub struct FrameInput<P, D> {
    /// The events since the previous frame, oldest first.
    pub events: Vec<Event<P, D>>,
    pub viewport: Viewport,
    pub window_width: u32,
    pub window_height: u32,
    /// Whether this is the first frame, or the first since the window was
    /// uncovered.
    pub first_frame: bool,
}

impl<P, D> FrameInputGenerator<P, D> {
    #[verifier::type_invariant]
    closed spec fn inv(self) -> bool {
        self@.wf()
    }
}

impl<P: Copy, D> FrameInputGenerator<P, D> {
    /// Creates a generator for a window of `width` by `height` physical
    /// pixels, which are `logical_width` by `logical_height` logical pixels.
    /// On macOS the command key is the super key, elsewhere it is control.
    pub fn new(
        width: u32,
        height: u32,
        logical_width: u32,
        logical_height: u32,
        is_macos: bool,
    ) -> (r: Self)
        ensures
            r@ == FrameInputState::<P, D>::initial(
                width,
                height,
                logical_width,
                logical_height,
                is_macos,
            ),
    {
        let r = FrameInputGenerator {
            first_frame: true,
            events: Vec::new(),
            viewport: Viewport::new_at_origo(width, height),
            window_width: logical_width,
            window_height: logical_height,
            cursor_pos: None,
            finger_id: None,
            secondary_cursor_pos: None,
            secondary_finger_id: None,
            modifiers: Modifiers::default(),
            mouse_pressed: None,
            is_macos,
        };
        assert(model_of_events(r.events@) =~= Seq::empty());
        r
    }

    /// The viewport that covers the window.
    pub fn viewport(&self) -> (r: Viewport)
        ensures
            r == self@.viewport,
    {
        self.viewport
    }

    fn push_event(&mut self, e: Event<P, D>)
        ensures
            final(self)@ == old(self)@.emit(model_of_event(e)),
    {
        proof {
            use_type_invariant(&*self);
        }
        let ghost e_model = model_of_event(e);
        let mut events = Vec::new();
        core::mem::swap(&mut events, &mut self.events);
        events.push(e);
        self.events = events;
        assert(model_of_events(self.events@) =~= model_of_events(old(self).events@).push(e_model));
    }

    fn handle_key(&mut self, key: Option<KeyCode>, pressed: bool)
        ensures
            final(self)@ == old(self)@.after_key(key, pressed),
    {
        proof {
            use_type_invariant(&*self);
        }
        if let Some(keycode) = key {
            if let Some(kind) = translate_virtual_key_code(keycode) {
                let e = if pressed {
                    InputEvent::KeyPress { kind, modifiers: self.modifiers, handled: false }
                } else {
                    InputEvent::KeyRelease { kind, modifiers: self.modifiers, handled: false }
                };
                self.push_event(e);
            } else if keycode == KeyCode::ControlLeft || keycode == KeyCode::ControlRight {
                self.modifiers.ctrl = pressed;
                if !self.is_macos {
                    self.modifiers.command = pressed;
                }
                self.push_event(InputEvent::ModifiersChange { modifiers: self.modifiers });
            } else if keycode == KeyCode::AltLeft || keycode == KeyCode::AltRight {
                self.modifiers.alt = pressed;
                self.push_event(InputEvent::ModifiersChange { modifiers: self.modifiers });
            } else if keycode == KeyCode::ShiftLeft || keycode == KeyCode::ShiftRight {
                self.modifiers.shift = pressed;
                self.push_event(InputEvent::ModifiersChange { modifiers: self.modifiers });
            } else if (keycode == KeyCode::SuperLeft || keycode == KeyCode::SuperRight)
                && self.is_macos {
                self.modifiers.command = pressed;
                self.push_event(InputEvent::ModifiersChange { modifiers: self.modifiers });
            }
        }
    }

    fn handle_text(&mut self, text: Option<String>)
        ensures
            final(self)@ == old(self)@.after_text(
                match text {
                    Some(t) => Some(t@),
                    None => None,
                },
            ),
    {
        proof {
            use_type_invariant(&*self);
        }
        if let Some(text) = text {
            let ctrl = self.modifiers.ctrl;
            let command = self.modifiers.command;
            let ghost pred = |c: char| spec_is_printable_char(c) && !ctrl && !command;
            let ghost t = text@;
            let mut s = String::new();
            for ch in it: text.as_str().chars()
                invariant
                    it.seq() == t,
                    pred == (|c: char| spec_is_printable_char(c) && !ctrl && !command),
                    s@ == t.take(it.index()).filter(pred),
            {
                let ghost i = it.index();
                assert(ch == t[i]);
                if is_printable_char(ch) && !ctrl && !command {
                    push_char(&mut s, ch);
                }
                proof {
                    reveal(Seq::filter);
                    assert(t.take(i + 1).drop_last() =~= t.take(i));
                    assert(t.take(i + 1).last() == ch);
                }
            }
            assert(t.take(t.len() as int) =~= t);
            if !s.as_str().is_empty() {
                self.push_event(InputEvent::Text(s));
            }
        }
    }

    fn handle_wheel(&mut self, delta: D)
        ensures
            final(self)@ == old(self)@.after_wheel(delta),
    {
        if let Some(position) = self.cursor_pos {
            self.push_event(
                InputEvent::MouseWheel {
                    delta: WheelDelta::Scroll(delta),
                    position,
                    modifiers: self.modifiers,
                    handled: false,
                },
            );
        }
    }

    fn handle_mouse_input(&mut self, pressed: bool, button: PointerButton)
        ensures
            final(self)@ == old(self)@.after_mouse_input(pressed, button),
    {
        proof {
            use_type_invariant(&*self);
        }
        if let Some(position) = self.cursor_pos {
            if let Some(b) = translate_mouse_button(button) {
                if pressed {
                    self.mouse_pressed = Some(b);
                    self.push_event(
                        InputEvent::MousePress {
                            button: b,
                            position,
                            modifiers: self.modifiers,
                            handled: false,
                        },
                    );
                } else {
                    self.mouse_pressed = None;
                    self.push_event(
                        InputEvent::MouseRelease {
                            button: b,
                            position,
                            modifiers: self.modifiers,
                            handled: false,
                        },
                    );
                }
            }
        }
    }

    fn handle_cursor_moved(&mut self, position: P)
        ensures
            final(self)@ == old(self)@.after_cursor_moved(position),
    {
        proof {
            use_type_invariant(&*self);
        }
        let delta = if let Some(last_pos) = self.cursor_pos {
            MotionDelta::Between { from: last_pos, to: position }
        } else {
            MotionDelta::Zero
        };
        let e = InputEvent::MouseMotion {
            button: self.mouse_pressed,
            delta,
            position,
            modifiers: self.modifiers,
            handled: false,
        };
        self.push_event(e);
        self.cursor_pos = Some(position);
    }

    fn handle_touch(&mut self, id: u64, phase: TouchPhase, position: P)
        ensures
            final(self)@ == old(self)@.after_touch(id, phase, position),
    {
        proof {
            use_type_invariant(&*self);
        }
        match phase {
            TouchPhase::Started => {
                if self.finger_id.is_none() {
                    self.push_event(
                        InputEvent::MousePress {
                            button: MouseButton::Left,
                            position,
                            modifiers: self.modifiers,
                            handled: false,
                        },
                    );
                    self.cursor_pos = Some(position);
                    self.finger_id = Some(id);
                } else if self.secondary_finger_id.is_none() {
                    self.secondary_cursor_pos = Some(position);
                    self.secondary_finger_id = Some(id);
                }
            },
            TouchPhase::Ended | TouchPhase::Cancelled => {
                if self.finger_id == Some(id) {
                    self.push_event(
                        InputEvent::MouseRelease {
                            button: MouseButton::Left,
                            position,
                            modifiers: self.modifiers,
                            handled: false,
                        },
                    );
                    self.finger_id = None;
                    self.cursor_pos = None;
                } else if self.secondary_finger_id == Some(id) {
                    self.secondary_finger_id = None;
                    self.secondary_cursor_pos = None;
                }
            },
            TouchPhase::Moved => {
                if self.finger_id == Some(id) {
                    let last_pos = self.cursor_pos.unwrap();
                    if let Some(p) = self.secondary_cursor_pos {
                        self.push_event(
                            InputEvent::MouseWheel {
                                delta: WheelDelta::Pinch { anchor: p, from: last_pos, to: position },
                                position,
                                modifiers: self.modifiers,
                                handled: false,
                            },
                        );
                    } else {
                        self.push_event(
                            InputEvent::MouseMotion {
                                button: Some(MouseButton::Left),
                                delta: MotionDelta::Between { from: last_pos, to: position },
                                position,
                                modifiers: self.modifiers,
                                handled: false,
                            },
                        );
                    }
                    self.cursor_pos = Some(position);
                } else if self.secondary_finger_id == Some(id) {
                    let last_pos = self.secondary_cursor_pos.unwrap();
                    if let Some(p) = self.cursor_pos {
                        self.push_event(
                            InputEvent::MouseWheel {
                                delta: WheelDelta::Pinch { anchor: p, from: last_pos, to: position },
                                position: p,
                                modifiers: self.modifiers,
                                handled: false,
                            },
                        );
                    }
                    self.secondary_cursor_pos = Some(position);
                }
            },
        }
    }

    /// Takes in an event of the window: updates the state that frames are
    /// drawn with and queues the events that it gives rise to.
    pub fn handle_winit_window_event(&mut self, event: WindowInput<P, D>)
        ensures
            final(self)@ == old(self)@.step(event),
    {
        proof {
            use_type_invariant(&*self);
        }
        match event {
            WindowInput::Resized { width, height, logical_width, logical_height } => {
                self.viewport = Viewport::new_at_origo(width, height);
                self.window_width = logical_width;
                self.window_height = logical_height;
            },
            WindowInput::Occluded(occluded) => {
                if !occluded {
                    self.first_frame = true;
                }
            },
            WindowInput::KeyboardInput { key, pressed, text } => {
                self.handle_key(key, pressed);
                self.handle_text(text);
            },
            WindowInput::MouseWheel { delta } => self.handle_wheel(delta),
            WindowInput::MouseInput { pressed, button } => self.handle_mouse_input(pressed, button),
            WindowInput::CursorMoved { position } => self.handle_cursor_moved(position),
            WindowInput::CursorEntered => self.push_event(InputEvent::MouseEnter),
            WindowInput::CursorLeft => {
                self.mouse_pressed = None;
                self.push_event(InputEvent::MouseLeave);
            },
            WindowInput::Touch { id, phase, position } => self.handle_touch(id, phase, position),
            WindowInput::Other => {},
        }
    }

    /// Hands out the input of a frame: the events queued since the previous
    /// frame, which leave the queue, and the window's state. Only the first
    /// frame generated after creation or after the window was uncovered is
    /// marked first.
    pub fn generate(&mut self) -> (r: FrameInput<P, D>)
        ensures
            model_of_events(r.events@) == old(self)@.events,
            r.viewport == old(self)@.viewport,
            r.window_width == old(self)@.window_width,
            r.window_height == old(self)@.window_height,
            r.first_frame == old(self)@.first_frame,
            final(self)@ == (FrameInputState {
                events: Seq::empty(),
                first_frame: false,
                ..old(self)@
            }),
    {
        proof {
            use_type_invariant(&*self);
        }
        let mut events = Vec::new();
        core::mem::swap(&mut events, &mut self.events);
        let frame_input = FrameInput {
            events,
            viewport: self.viewport,
            window_width: self.window_width,
            window_height: self.window_height,
            first_frame: self.first_frame,
        };
        self.first_frame = false;
        assert(model_of_events(self.events@) =~= Seq::empty());
        frame_input
    }
}

} // verus!
