//! Decision logic of a single-window, single-pipeline renderer: mesh
//! validation and upload encoding, the fixed vertex and pipeline layout,
//! surface configuration, and the per-event and per-frame state machine.
//! The GPU and window objects themselves are driven by the caller.

pub mod geometry;
pub mod layout;
pub mod pipeline;
pub mod state;
pub mod surface;
