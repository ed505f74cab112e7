//! Verified core of a small air-quality monitor: a sensor is sampled over a
//! shared bus and the latest reading is shown on a display, each at its own
//! pace.
//!
//! Everything here is synchronous and owns its state. Work that suspends (bus
//! transfers, timers, display flushes) is performed by the surrounding
//! firmware, which feeds the outcome of each step back into the state machines
//! defined in this crate.

pub mod bus;
pub mod channel;
pub mod discovery;
pub mod halt;
pub mod presentation;
pub mod sampling;
pub mod startup;
pub mod text;
