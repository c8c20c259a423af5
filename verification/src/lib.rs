//! Device-monitoring core for a small single-board monitor: a simulated
//! status display, a renderer that turns state snapshots into a
//! deterministic sequence of draw calls, and the shared-state
//! transitions behind the periodic tasks and the HTTP surface.

pub mod display;
pub mod numfmt;
pub mod render;
pub mod state;
