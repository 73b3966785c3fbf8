//! Pattern navigation and progress estimation engine for a loom "drawboy"
//! assist display.
//!
//! The engine tracks the operator's position in a weaving pattern under three
//! operating modes, advances and retreats that position with wraparound,
//! computes the window of rows or threads to display around the position, and
//! keeps a smoothed estimate of time-per-step from which a completion ETA is
//! derived. Rendering, pattern-file parsing, persistence and physical input
//! are external collaborators; they hand the engine plain values and take
//! plain values back.

pub mod engine;
pub mod ewma;
pub mod mode;
pub mod nav;
pub mod pattern;
pub mod window;
