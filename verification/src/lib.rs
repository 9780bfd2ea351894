//! A simulated astronomical camera: an exposure-lifecycle state machine with
//! fixed sensor capabilities and a deterministic synthetic image payload.
//!
//! Time is measured in whole microseconds since an arbitrary epoch; the caller
//! reads the clock and passes the current instant into every time-dependent
//! operation, so the state machine itself is a pure function of its inputs.

pub mod config;
pub mod device;
pub mod laws;
pub mod payload;
