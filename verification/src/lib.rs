//! Trainer core for memorizing directional input sequences ("keycodes")
//! associated with named stratagems.
//!
//! The library holds the static catalog (each stratagem's keycode, display
//! name and icon path) and the input-matching state machine that consumes a
//! stream of directional key events against the current target.

pub mod db;
pub mod rng;
pub mod session;
