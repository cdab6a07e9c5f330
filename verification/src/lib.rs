//! A traffic intersection controller: a vehicle light paired with a pedestrian
//! light, cycling through a fixed table of phases, with an emergency stop that
//! forces the safe phase at once.
//!
//! The library decides; it never sleeps and never prints. Each handled event
//! yields the new phase together with what the caller has to do about it: how
//! long to block, which lines to emit, and which event to feed back in.

pub mod laws;
pub mod machine;
pub mod signals;
pub mod wording;
