//! Connectivity watchdog: a verified driver for a co-processor radio's framed
//! serial protocol, and the hysteresis state machine that decides from its
//! probes when to cut a relay.
pub mod esp;
pub mod frame;
pub mod monitor;
