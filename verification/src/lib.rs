//! Core logic of a network-connected alarm-clock device.
//!
//! The library keeps a set of cron-style wake schedules, computes the next
//! pending occurrence, and decides on every tick of a cooperative loop
//! whether to fire the alert, resynchronize the clock, refresh the remote
//! configuration, or emit a liveness signal — each at most once per its own
//! time window. All surrounding I/O (the wireless link, the time source,
//! the network client, the actuator pins) stays outside the library; the
//! functions here take plain values and return decisions.

pub mod config;
pub mod datetime;
pub mod guard;
pub mod identity;
pub mod orchestrator;
pub mod schedule;
pub mod selector;
