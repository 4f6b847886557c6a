//! A minimal real-time rendering harness, modelled as verified decision logic.
//!
//! The library holds everything the harness decides: how a shader build
//! succeeds or fails, what command sequence uploads a static mesh, and how the
//! frame loop reacts to events and emits its per-frame draw commands. The
//! window, the graphics context and the GPU calls themselves live outside the
//! library, in a thin unverified shell that executes the command sequences and
//! feeds driver reports back in as plain values.

pub mod color;
pub mod config;
pub mod frame;
pub mod log_buffer;
pub mod mesh;
pub mod shader;
