//! Decision logic of a GPU-presented immediate-mode UI: the surface
//! configuration across resizes, the UI frame protocol, the order of GPU work
//! for one frame, and the event-driven frame loop that ties them together.
pub mod controller;
pub mod frame;
pub mod laws;
pub mod submit;
pub mod surface;
