//! Core of a multiplayer vehicle-sync server, verified with Verus.
//!
//! Two pieces live here. [`car`] holds the dead-reckoning state of one
//! remote vehicle and extrapolates its pose between discrete authoritative
//! updates. [`heartbeat`] validates a registration key, keeps the
//! registration snapshot current, decides what a periodic registration
//! loop must do on every event, and renders the form-encoded request body
//! ([`encoding`]) that each heartbeat sends.
//!
//! Everything here is plain-value logic: timers, channels and HTTP belong
//! to the surrounding program, which feeds events in and performs the
//! actions handed back.

pub mod car;
pub mod encoding;
pub mod heartbeat;
