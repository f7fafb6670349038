//! A multi-tap keyboard-layout switcher core.
//!
//! A single hotkey press toggles between the two most recently used
//! layouts; a rapid burst of presses walks through the remaining layouts,
//! promoting each visited layout into the fast-access slot.  Every press
//! runs in a fresh process, so the whole state is a plain value that a
//! host program loads, transforms through the functions here, and stores
//! again.  All times are integer microseconds.

pub mod classifier;
pub mod devices;
pub mod duration;
pub mod laws;
pub mod layouts;
pub mod ops;
pub mod rotation;
pub mod state;

pub use duration::Duration;
pub use state::Data;
