//! Painting egui with wgpu on winit.
//!
//! A [`painter::Painter`] decides when an adapter, a device, a surface, a depth texture and a
//! capture buffer are asked for, what each of them is asked for with, how long it is kept, and in
//! what order the steps of a frame are taken. The calls on the graphics backend are made by
//! whoever drives the painter: each method takes an event and gives the action that comes next.
//!
//! [`model`] states what a painter is and what each event does to it. [`request_laws`] says what is
//! asked of the backend, [`event_laws`] what an event changes, and [`laws`] what follows over several
//! events. [`padding`] deals with the bytes of a texture that was read back.

pub mod backend;
pub mod capture;
pub mod constants;
pub mod event_laws;
pub mod frame;
pub mod laws;
pub mod model;
pub mod padding;
pub mod painter;
pub mod render_state;
pub mod request_laws;
pub mod surface;
