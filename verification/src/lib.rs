//! A terminal "executive decision maker": a fixed table of six answers, a
//! shuffle animation that settles on one of them, and a pure renderer.
//!
//! The library holds the presentation state machine and the frame layout
//! logic; all terminal and clock plumbing lives outside. Instants are plain
//! millisecond counts on the caller's monotonic clock, and key events are
//! plain records, so every transition here is a verified function of its
//! arguments.

pub mod laws;
pub mod machine;
pub mod render;
mod rng;
