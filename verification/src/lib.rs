//! Coretime sale notifier: a verified core for a service that watches a
//! blockchain's coretime broker, derives the phase schedule of each sale,
//! and turns finalized blocks into notification triggers for registered
//! users.
//!
//! The library holds the logic alone: schedule resolution, the tracker's
//! per-block state machine, user-record integrity, registration handling
//! and dispatch planning. Chain access, HTTP and persistence live outside
//! and hand plain values in.

pub mod dispatch;
pub mod register;
pub mod schedule;
pub mod tracker;
pub mod types;
pub mod users;
