//! Rendering-side helpers and the window-input state machine of a small
//! 3D graphics library.

pub mod atomic_counter_buffer;
pub mod event_laws;
pub mod frame_input_generator;
pub mod input;
pub mod input_laws;
pub mod oit_resolve;
pub mod particles;
pub mod viewport;
