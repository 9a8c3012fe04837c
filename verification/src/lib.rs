//! A minimal real-time simulation harness: a frame-scheduling and
//! simulation-stepping runtime driven by a host frame clock.
//!
//! Each tick the runner measures elapsed time, assembles an immutable
//! frame context, calls the payload's `render` and then its `update`,
//! and advances its bookkeeping. The host-facing half (registering the
//! next wake-up, executing drawing commands) lives outside this crate;
//! here the loop is driven either tick by tick or through a bounded
//! synthetic run whose behaviour is fully specified.

pub mod clock;
pub mod dynamics;
pub mod pendulum;
pub mod runner;
pub mod scheduler;
pub mod sim;
