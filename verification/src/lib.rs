//! A verified core for a gamified personal task tracker.
//!
//! The crate owns the task lifecycle state machine (pending, in progress,
//! paused, completed), the time bookkeeping that yields a task's active
//! duration, and the scoring engine that turns a completion into points,
//! streak progression, and streak decay. Persistence and terminal rendering
//! are left to the surrounding application; every function here works on
//! plain values the caller already holds.

pub mod input;
pub mod scoring;
pub mod session;
pub mod stats;
pub mod task;
