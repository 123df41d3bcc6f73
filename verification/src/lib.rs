//! Recognition engine for configurable keyboard hotkeys.
//!
//! The library models one- and two-chord hotkey sequences with a timing
//! window, a process-wide modifier register, a capture mode that records new
//! sequences from live key events, and the runtime matching state machine
//! that decides for every keyboard event whether it is consumed or passed on.

pub mod chords;
pub mod config;
pub mod conversion;
pub mod engine;
pub mod errors;
pub mod geom;
pub mod format;
pub mod keys;
pub mod mods;
pub mod notify;
pub mod sequence;
pub mod slots;
