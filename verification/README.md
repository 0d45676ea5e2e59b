# three_d (verified core)

The verified core of a small 3D graphics library, written in Verus:

- `frame_input_generator`: the state machine that turns window events into
  the input of a frame (key, text, mouse and touch events, modifiers, window
  size, first-frame flag), with its state's model and per-event semantics;
- `input`: key and mouse-button translation, the printable-character test,
  and the event types, generic over the position and scroll-amount types;
- `input_laws`: properties of the state machine proved over its model;
- `particles`: the data of instanced particles and their draw call;
- `atomic_counter_buffer`, `oit_resolve`, `viewport`: small render-side types.

`app/` holds the winit glue: it converts winit's events, measures time and
does the floating-point pixel arithmetic, then drives the verified core.
