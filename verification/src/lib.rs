//! Job lifecycle manager for asynchronous waveform-peak generation.
//!
//! A task pairs an uploaded audio file with a callback address. The store
//! keeps pending tasks in insertion order and hands out fresh identities;
//! the scheduler drives each task through extraction, delivery and cleanup,
//! leaving failed tasks in place for the next tick.

pub mod errors;
pub mod task;
pub mod store;
pub mod peaks;
pub mod payload;
pub mod notify;
pub mod scheduler;
pub mod intake;
